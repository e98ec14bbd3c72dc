use vstd::prelude::*;

use crate::securable::SecurableType;
use crate::text::str_eq;

verus! {

/// The identity record returned by the identity endpoint.
#[derive(Debug)]
pub struct User {
    pub id: String,
    pub user_name: String,
    pub display_name: String,
    pub active: bool,
}

/// The decision of the construction-time authentication gate: the
/// identity lookup must have succeeded and the returned user name must
/// equal the expected principal, exactly and case-sensitively.
pub fn authentication_accepted(status_success: bool, user: &User, expected_user_name: &str) -> (r:
    bool)
    ensures
        r == (status_success && user.user_name@ == expected_user_name@),
{
    status_success && str_eq(user.user_name.as_str(), expected_user_name)
}

/// The ownership record returned when one securable is described.
#[derive(Debug)]
pub struct ObjectOwnerResponse {
    pub full_name: String,
    pub owner: String,
}

/// One privilege grant: a principal's privilege tokens on one
/// securable. The metadata service does not echo which securable a
/// grant was fetched for, so the fetching side tags `object_name` and
/// `object_type` itself.
#[derive(Debug)]
pub struct PrivilegeAssignment {
    pub object_name: String,
    pub object_type: Option<SecurableType>,
    pub principal: Option<String>,
    pub privileges: Option<Vec<String>>,
}

/// The mathematical image of one privilege grant.
#[verifier::ext_equal]
pub struct AssignmentView {
    pub object_name: Seq<char>,
    pub object_type: Option<SecurableType>,
    pub principal: Option<Seq<char>>,
    pub privileges: Option<Seq<Seq<char>>>,
}

impl View for PrivilegeAssignment {
    type V = AssignmentView;

    open spec fn view(&self) -> AssignmentView {
        AssignmentView {
            object_name: self.object_name@,
            object_type: self.object_type,
            principal: match self.principal {
                Some(p) => Some(p@),
                None => None,
            },
            privileges: match self.privileges {
                Some(v) => Some(v.deep_view()),
                None => None,
            },
        }
    }
}

impl DeepView for PrivilegeAssignment {
    type V = AssignmentView;

    open spec fn deep_view(&self) -> AssignmentView {
        self.view()
    }
}

/// A grant, re-tagged with the securable it was fetched for.
pub open spec fn tag_view(a: AssignmentView, name: Seq<char>, t: SecurableType) -> AssignmentView {
    AssignmentView { object_name: name, object_type: Some(t), ..a }
}

/// A whole grant list re-tagged with one securable.
pub open spec fn tag_all(s: Seq<AssignmentView>, name: Seq<char>, t: SecurableType) -> Seq<
    AssignmentView,
> {
    s.map_values(|a: AssignmentView| tag_view(a, name, t))
}

/// The aggregated privilege grants collected over a securable's
/// ancestry chain, in fetch order. The grant list is absent only when
/// the metadata service answered without one.
#[derive(Debug)]
pub struct PrivilegeAssignmentsResponse {
    pub privilege_assignments: Option<Vec<PrivilegeAssignment>>,
}

impl View for PrivilegeAssignmentsResponse {
    type V = Option<Seq<AssignmentView>>;

    open spec fn view(&self) -> Option<Seq<AssignmentView>> {
        match self.privilege_assignments {
            Some(v) => Some(v.deep_view()),
            None => None,
        }
    }
}

fn clone_opt_string(o: &Option<String>) -> (r: Option<String>)
    ensures
        r is Some <==> o is Some,
        r is Some ==> r->0@ == o->0@,
{
    match o {
        Some(s) => Some(s.clone()),
        None => None,
    }
}

fn clone_string_vec(v: &Vec<String>) -> (r: Vec<String>)
    ensures
        r.deep_view() == v.deep_view(),
{
    let mut r: Vec<String> = Vec::new();
    let mut i: usize = 0;
    while i < v.len()
        invariant
            i <= v@.len(),
            r@.len() == i,
            forall|k: int| 0 <= k < i ==> r.deep_view()[k] == v.deep_view()[k],
        decreases v@.len() - i,
    {
        r.push(v[i].clone());
        i = i + 1;
    }
    proof {
        assert(r.deep_view() =~= v.deep_view());
    }
    r
}

fn clone_opt_string_vec(o: &Option<Vec<String>>) -> (r: Option<Vec<String>>)
    ensures
        r is Some <==> o is Some,
        r is Some ==> r->0.deep_view() == o->0.deep_view(),
{
    match o {
        Some(v) => Some(clone_string_vec(v)),
        None => None,
    }
}

impl PrivilegeAssignmentsResponse {
    /// An aggregate with no grants collected yet.
    pub fn new() -> (r: Self)
        ensures
            r@ == Some(Seq::<AssignmentView>::empty()),
    {
        let r = PrivilegeAssignmentsResponse { privilege_assignments: Some(Vec::new()) };
        proof {
            assert(r@->0 =~= Seq::<AssignmentView>::empty());
        }
        r
    }

    /// Folds a freshly fetched grant list into the aggregate, tagging
    /// every grant with the securable it was fetched for. An absent
    /// list on either side leaves the aggregate unchanged.
    pub fn add_assignment(
        &mut self,
        privilege_assignments: PrivilegeAssignmentsResponse,
        object_name: &str,
        object_type: SecurableType,
    )
        ensures
            old(self)@ is None ==> final(self)@ == old(self)@,
            old(self)@ is Some && privilege_assignments@ is None ==> final(self)@ == old(self)@,
            old(self)@ is Some && privilege_assignments@ is Some ==> final(self)@ == Some(
                old(self)@->0 + tag_all(privilege_assignments@->0, object_name@, object_type),
            ),
    {
        let mut incoming_tagged: Vec<PrivilegeAssignment> = Vec::new();
        let ghost incoming_view = privilege_assignments@;
        match privilege_assignments.privilege_assignments {
            None => {},
            Some(incoming) => {
                let mut i: usize = 0;
                while i < incoming.len()
                    invariant
                        i <= incoming@.len(),
                        incoming_tagged@.len() == i,
                        forall|k: int|
                            0 <= k < i ==> #[trigger] incoming_tagged@[k]@ == tag_view(
                                incoming@[k]@,
                                object_name@,
                                object_type,
                            ),
                    decreases incoming@.len() - i,
                {
                    let a = PrivilegeAssignment {
                        object_name: String::from_str(object_name),
                        object_type: Some(object_type),
                        principal: clone_opt_string(&incoming[i].principal),
                        privileges: clone_opt_string_vec(&incoming[i].privileges),
                    };
                    proof {
                        assert(a@ =~= tag_view(incoming@[i as int]@, object_name@, object_type));
                    }
                    incoming_tagged.push(a);
                    i = i + 1;
                }
                proof {
                    let tv = tag_all(incoming.deep_view(), object_name@, object_type);
                    assert forall|k: int| 0 <= k < incoming_tagged@.len() implies incoming_tagged.deep_view()[k]
                        == tv[k] by {
                        assert(incoming_tagged.deep_view()[k] == incoming_tagged@[k]@);
                        assert(incoming.deep_view()[k] == incoming@[k]@);
                        assert(tv[k] == tag_view(incoming.deep_view()[k], object_name@, object_type));
                    }
                    assert(incoming_tagged.deep_view() =~= tv);
                }
            },
        }
        let ghost tagged_view = incoming_tagged.deep_view();
        match &mut self.privilege_assignments {
            Some(list) => {
                let ghost list_before = list.deep_view();
                list.append(&mut incoming_tagged);
                proof {
                    assert(list.deep_view() =~= list_before + tagged_view);
                    if incoming_view is None {
                        assert(list.deep_view() =~= list_before);
                    }
                }
            },
            None => {},
        }
    }
}

/// Whether one grant contributes a privilege that the caller requires:
/// it names a principal, carries a privilege list, and some listed
/// token is among the required ones.
pub open spec fn assignment_allows(a: AssignmentView, required: Seq<Seq<char>>) -> bool {
    &&& a.principal is Some
    &&& a.privileges is Some
    &&& any_token_matches(a.privileges->0, required)
}

/// Whether any collected grant carries a required privilege.
pub open spec fn grants_allow(assignments: Seq<AssignmentView>, required: Seq<Seq<char>>) -> bool {
    exists|k: int| 0 <= k < assignments.len() && assignment_allows(#[trigger] assignments[k], required)
}

/// Whether some listed privilege token equals some required token.
pub open spec fn any_token_matches(privileges: Seq<Seq<char>>, required: Seq<Seq<char>>) -> bool {
    exists|i: int, j: int|
        0 <= i < privileges.len() && 0 <= j < required.len() && privileges[i] == required[j]
}

fn has_any(privileges: &Vec<String>, required: &Vec<String>) -> (r: bool)
    ensures
        r == any_token_matches(privileges.deep_view(), required.deep_view()),
{
    let mut i: usize = 0;
    while i < privileges.len()
        invariant
            i <= privileges@.len(),
            forall|i2: int, j: int|
                0 <= i2 < i && 0 <= j < required@.len() ==> #[trigger] privileges@[i2]@
                    != #[trigger] required@[j]@,
        decreases privileges@.len() - i,
    {
        let mut j: usize = 0;
        while j < required.len()
            invariant
                i < privileges@.len(),
                j <= required@.len(),
                forall|j2: int|
                    0 <= j2 < j ==> privileges@[i as int]@ != #[trigger] required@[j2]@,
            decreases required@.len() - j,
        {
            if str_eq(privileges[i].as_str(), required[j].as_str()) {
                proof {
                    assert(privileges.deep_view()[i as int] == privileges@[i as int]@);
                    assert(required.deep_view()[j as int] == required@[j as int]@);
                    assert(any_token_matches(privileges.deep_view(), required.deep_view()));
                }
                return true;
            }
            j = j + 1;
        }
        i = i + 1;
    }
    proof {
        assert forall|i2: int, j: int|
            0 <= i2 < privileges.deep_view().len() && 0 <= j
                < required.deep_view().len() implies #[trigger] privileges.deep_view()[i2]
            != #[trigger] required.deep_view()[j] by {
            assert(privileges.deep_view()[i2] == privileges@[i2]@);
            assert(required.deep_view()[j] == required@[j]@);
        }
    }
    false
}

/// Scans every collected grant for any required privilege token. This
/// is the deny-by-default tail of an authorization check: with no
/// matching token anywhere, the answer is `false`.
pub fn scan_allow(assignments: &Vec<PrivilegeAssignment>, required: &Vec<String>) -> (r: bool)
    ensures
        r == grants_allow(assignments.deep_view(), required.deep_view()),
{
    let mut k: usize = 0;
    while k < assignments.len()
        invariant
            k <= assignments@.len(),
            forall|k2: int|
                0 <= k2 < k ==> !assignment_allows(
                    #[trigger] assignments.deep_view()[k2],
                    required.deep_view(),
                ),
        decreases assignments@.len() - k,
    {
        let a = &assignments[k];
        proof {
            assert(assignments.deep_view()[k as int] == assignments@[k as int]@);
        }
        if a.principal.is_some() {
            match &a.privileges {
                Some(privs) => {
                    if has_any(privs, required) {
                        proof {
                            assert(assignment_allows(
                                assignments.deep_view()[k as int],
                                required.deep_view(),
                            ));
                        }
                        return true;
                    }
                },
                None => {},
            }
        }
        k = k + 1;
    }
    false
}

/// The privileges that entitle a principal to read: an explicit
/// `SELECT`, or the blanket `ALL_PRIVILEGES`.
pub fn read_privileges() -> (r: Vec<String>)
    ensures
        r.deep_view() == seq!["SELECT"@, "ALL_PRIVILEGES"@],
{
    let r = vec![String::from_str("SELECT"), String::from_str("ALL_PRIVILEGES")];
    proof {
        assert(r.deep_view() =~= seq!["SELECT"@, "ALL_PRIVILEGES"@]);
    }
    r
}

/// The privileges that entitle a principal to write: an explicit
/// `MODIFY`, or the blanket `ALL_PRIVILEGES`.
pub fn write_privileges() -> (r: Vec<String>)
    ensures
        r.deep_view() == seq!["MODIFY"@, "ALL_PRIVILEGES"@],
{
    let r = vec![String::from_str("MODIFY"), String::from_str("ALL_PRIVILEGES")];
    proof {
        assert(r.deep_view() =~= seq!["MODIFY"@, "ALL_PRIVILEGES"@]);
    }
    r
}

} // verus!
