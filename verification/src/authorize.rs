use vstd::prelude::*;

use crate::permissions::{
    grants_allow, read_privileges, scan_allow, tag_all, write_privileges, AssignmentView,
    ObjectOwnerResponse, PrivilegeAssignmentsResponse,
};
use crate::securable::{SecurableName, SecurableType};
use crate::text::str_eq;

verus! {

/// One level of a securable's ancestry chain.
#[derive(Debug, Clone, Copy, PartialEq, Eq, Structural)]
pub enum Level {
    Catalog,
    Schema,
    Object,
}

/// Where an authorization check stands.
///
/// Ownership is checked first, nearest ancestor first; grants are then
/// collected broadest ancestor first; the final decision scans the
/// collected grants.
#[derive(Debug, Clone, Copy, PartialEq, Eq, Structural)]
pub enum Phase {
    /// Waiting for the owner record of this level.
    Owner(Level),
    /// Waiting for the privilege grants of this level.
    Grants(Level),
    /// The check is decided.
    Done(bool),
}

/// What the caller must fetch next to advance an authorization check.
#[derive(Debug)]
pub enum AuthRequest {
    /// Fetch the owner record of the named securable.
    Owner { securable: SecurableType, full_name: String },
    /// Fetch the privilege grants on the named securable.
    Grants { securable: SecurableType, full_name: String },
}

/// Whether the name actually has a segment at this level.
pub open spec fn level_present(name: SecurableName, l: Level) -> bool {
    match l {
        Level::Catalog => true,
        Level::Schema => name.has_schema(),
        Level::Object => name.has_object(),
    }
}

/// The nearest (deepest) level the name has.
pub open spec fn spec_deepest(name: SecurableName) -> Level {
    if name.has_object() {
        Level::Object
    } else if name.has_schema() {
        Level::Schema
    } else {
        Level::Catalog
    }
}

/// How many ancestry levels the name has.
pub open spec fn spec_num_levels(name: SecurableName) -> int {
    if name.has_object() {
        3
    } else if name.has_schema() {
        2
    } else {
        1
    }
}

/// The securable kind checked at a level: the object level keeps the
/// kind under check, the ancestor levels have fixed kinds.
pub open spec fn spec_level_kind(kind: SecurableType, l: Level) -> SecurableType {
    match l {
        Level::Object => kind,
        Level::Schema => SecurableType::Schema,
        Level::Catalog => SecurableType::Catalog,
    }
}

/// The full name fetched at a level.
pub open spec fn spec_level_name(name: SecurableName, l: Level) -> Seq<char> {
    match l {
        Level::Object => name.spec_raw(),
        Level::Schema => name.spec_schema_name(),
        Level::Catalog => name@[0],
    }
}

/// The phase after one owner record has been absorbed: a match decides
/// the whole check at once; a mismatch moves to the next shallower
/// level, or onward to grant collection after the catalog.
pub open spec fn spec_owner_step(name: SecurableName, l: Level, is_match: bool) -> Phase {
    if is_match {
        Phase::Done(true)
    } else {
        match l {
            Level::Object => if name.has_schema() {
                Phase::Owner(Level::Schema)
            } else {
                Phase::Owner(Level::Catalog)
            },
            Level::Schema => Phase::Owner(Level::Catalog),
            Level::Catalog => Phase::Grants(Level::Catalog),
        }
    }
}

/// The level whose grants are collected after this one, if any.
pub open spec fn spec_next_grants_level(name: SecurableName, l: Level) -> Option<Level> {
    match l {
        Level::Catalog => if name.has_schema() {
            Some(Level::Schema)
        } else {
            None
        },
        Level::Schema => if name.has_object() {
            Some(Level::Object)
        } else {
            None
        },
        Level::Object => None,
    }
}

/// How the grant aggregate evolves when one fetched grant list is
/// folded in (mirrors `PrivilegeAssignmentsResponse::add_assignment`).
pub open spec fn spec_collect(
    cur: Option<Seq<AssignmentView>>,
    incoming: Option<Seq<AssignmentView>>,
    name: Seq<char>,
    t: SecurableType,
) -> Option<Seq<AssignmentView>> {
    match cur {
        None => None,
        Some(c) => match incoming {
            None => Some(c),
            Some(inc) => Some(c + tag_all(inc, name, t)),
        },
    }
}

/// A stepwise authorization check for one principal on one securable.
///
/// The check itself performs no fetches: `next_request` names the
/// record it needs, the caller fetches it and hands it back through
/// `absorb_owner` or `absorb_grants`, and `decision` reports the
/// result once every needed record has been absorbed. Failing to fetch
/// is the caller's to handle (a transport failure aborts the check and
/// propagates); every absorbed record advances the check
/// deterministically.
pub struct Authorizer {
    pub name: SecurableName,
    pub kind: SecurableType,
    pub principal: String,
    pub required: Vec<String>,
    pub collected: PrivilegeAssignmentsResponse,
    pub phase: Phase,
}

impl Authorizer {
    /// The machine only ever asks for levels the name has, and grant
    /// collection starts only after every ownership check missed.
    pub open spec fn wf(self) -> bool {
        &&& self.name.wf()
        &&& match self.phase {
            Phase::Owner(l) => level_present(self.name, l) && self.collected@ == Some(
                Seq::<AssignmentView>::empty(),
            ),
            Phase::Grants(l) => level_present(self.name, l) && self.collected@ is Some,
            Phase::Done(_) => true,
        }
    }

    /// A check that has absorbed nothing yet.
    pub open spec fn is_fresh(self) -> bool {
        &&& self.wf()
        &&& self.phase == Phase::Owner(spec_deepest(self.name))
        &&& self.collected@ == Some(Seq::<AssignmentView>::empty())
    }

    /// Starts a check of `principal` holding any of `required` on the
    /// named securable, beginning with the ownership check of the
    /// nearest level.
    pub fn new(
        name: SecurableName,
        kind: SecurableType,
        principal: String,
        required: Vec<String>,
    ) -> (r: Authorizer)
        requires
            name.wf(),
        ensures
            r.is_fresh(),
            r.name == name,
            r.kind == kind,
            r.principal == principal,
            r.required == required,
    {
        let n = name.segment_count();
        let deepest = if n >= 3 {
            Level::Object
        } else if n == 2 {
            Level::Schema
        } else {
            Level::Catalog
        };
        Authorizer {
            name,
            kind,
            principal,
            required,
            collected: PrivilegeAssignmentsResponse::new(),
            phase: Phase::Owner(deepest),
        }
    }

    /// Starts a read check on a table: `SELECT` or `ALL_PRIVILEGES` is
    /// required.
    pub fn for_read(full_name: &str, principal: String) -> (r: Authorizer)
        ensures
            r.is_fresh(),
            r.name.spec_raw() == full_name@,
            r.kind == SecurableType::Table,
            r.principal@ == principal@,
            r.required.deep_view() == seq!["SELECT"@, "ALL_PRIVILEGES"@],
    {
        Authorizer::new(
            SecurableName::parse(full_name),
            SecurableType::Table,
            principal,
            read_privileges(),
        )
    }

    /// Starts a write check on a table: `MODIFY` or `ALL_PRIVILEGES`
    /// is required.
    pub fn for_write(full_name: &str, principal: String) -> (r: Authorizer)
        ensures
            r.is_fresh(),
            r.name.spec_raw() == full_name@,
            r.kind == SecurableType::Table,
            r.principal@ == principal@,
            r.required.deep_view() == seq!["MODIFY"@, "ALL_PRIVILEGES"@],
    {
        Authorizer::new(
            SecurableName::parse(full_name),
            SecurableType::Table,
            principal,
            write_privileges(),
        )
    }

    fn current_level(&self) -> (r: Level)
        requires
            !(self.phase is Done),
        ensures
            self.phase matches Phase::Owner(l) ==> r == l,
            self.phase matches Phase::Grants(l) ==> r == l,
    {
        match self.phase {
            Phase::Owner(l) => l,
            Phase::Grants(l) => l,
            Phase::Done(_) => Level::Catalog,
        }
    }

    fn level_name(&self, l: Level) -> (r: String)
        requires
            self.name.wf(),
            level_present(self.name, l),
        ensures
            r@ == spec_level_name(self.name, l),
    {
        match l {
            Level::Catalog => self.name.catalog_name(),
            Level::Schema => self.name.schema_name(),
            Level::Object => self.name.object_name(),
        }
    }

    fn level_kind(&self, l: Level) -> (r: SecurableType)
        ensures
            r == spec_level_kind(self.kind, l),
    {
        match l {
            Level::Object => self.kind,
            Level::Schema => SecurableType::Schema,
            Level::Catalog => SecurableType::Catalog,
        }
    }

    /// The fetch the check is waiting for, or nothing once decided. A
    /// decided check never asks for anything again.
    pub fn next_request(&self) -> (r: Option<AuthRequest>)
        requires
            self.wf(),
        ensures
            self.phase is Done ==> r is None,
            self.phase matches Phase::Owner(l) ==> (r matches Some(AuthRequest::Owner {
                securable,
                full_name,
            }) && securable == spec_level_kind(self.kind, l) && full_name@ == spec_level_name(
                self.name,
                l,
            )),
            self.phase matches Phase::Grants(l) ==> (r matches Some(AuthRequest::Grants {
                securable,
                full_name,
            }) && securable == spec_level_kind(self.kind, l) && full_name@ == spec_level_name(
                self.name,
                l,
            )),
    {
        match self.phase {
            Phase::Done(_) => None,
            Phase::Owner(l) => Some(
                AuthRequest::Owner {
                    securable: self.level_kind(l),
                    full_name: self.level_name(l),
                },
            ),
            Phase::Grants(l) => Some(
                AuthRequest::Grants {
                    securable: self.level_kind(l),
                    full_name: self.level_name(l),
                },
            ),
        }
    }

    /// Absorbs the owner record of the level under check. A matching
    /// owner decides the check positively on the spot — no grant is
    /// ever fetched in that case; a mismatch moves on to the next
    /// shallower level, or to grant collection once the catalog too
    /// has missed.
    pub fn absorb_owner(&mut self, rec: &ObjectOwnerResponse)
        requires
            old(self).wf(),
            old(self).phase is Owner,
        ensures
            final(self).wf(),
            final(self).name == old(self).name,
            final(self).kind == old(self).kind,
            final(self).principal == old(self).principal,
            final(self).required == old(self).required,
            final(self).collected@ == old(self).collected@,
            final(self).phase == spec_owner_step(
                old(self).name,
                old(self).phase->Owner_0,
                rec.owner@ == old(self).principal@,
            ),
    {
        let l = self.current_level();
        let is_match = str_eq(rec.owner.as_str(), self.principal.as_str());
        if is_match {
            self.phase = Phase::Done(true);
        } else {
            match l {
                Level::Object => {
                    if self.name.segment_count() >= 2 {
                        self.phase = Phase::Owner(Level::Schema);
                    } else {
                        self.phase = Phase::Owner(Level::Catalog);
                    }
                },
                Level::Schema => {
                    self.phase = Phase::Owner(Level::Catalog);
                },
                Level::Catalog => {
                    self.phase = Phase::Grants(Level::Catalog);
                },
            }
        }
    }

    /// Absorbs the privilege grants of the level under collection,
    /// tagging them with that level's name and kind. After the last
    /// level the check is decided by scanning everything collected:
    /// some grant must carry a required privilege, else the check
    /// denies.
    pub fn absorb_grants(&mut self, resp: PrivilegeAssignmentsResponse)
        requires
            old(self).wf(),
            old(self).phase is Grants,
        ensures
            final(self).wf(),
            final(self).name == old(self).name,
            final(self).kind == old(self).kind,
            final(self).principal == old(self).principal,
            final(self).required == old(self).required,
            final(self).collected@ == spec_collect(
                old(self).collected@,
                resp@,
                spec_level_name(old(self).name, old(self).phase->Grants_0),
                spec_level_kind(old(self).kind, old(self).phase->Grants_0),
            ),
            final(self).phase == (match spec_next_grants_level(
                old(self).name,
                old(self).phase->Grants_0,
            ) {
                Some(l2) => Phase::Grants(l2),
                None => Phase::Done(
                    grants_allow(final(self).collected@->0, old(self).required.deep_view()),
                ),
            }),
    {
        let l = self.current_level();
        let level_name = self.level_name(l);
        let level_kind = self.level_kind(l);
        self.collected.add_assignment(resp, level_name.as_str(), level_kind);
        let next = match l {
            Level::Catalog => {
                if self.name.segment_count() >= 2 {
                    Some(Level::Schema)
                } else {
                    None
                }
            },
            Level::Schema => {
                if self.name.segment_count() >= 3 {
                    Some(Level::Object)
                } else {
                    None
                }
            },
            Level::Object => None,
        };
        match next {
            Some(l2) => {
                self.phase = Phase::Grants(l2);
            },
            None => {
                let allowed = match &self.collected.privilege_assignments {
                    Some(list) => scan_allow(list, &self.required),
                    None => false,
                };
                self.phase = Phase::Done(allowed);
            },
        }
    }

    /// The result, once every needed record has been absorbed.
    pub fn decision(&self) -> (r: Option<bool>)
        ensures
            r == (match self.phase {
                Phase::Done(b) => Some(b),
                _ => None::<bool>,
            }),
    {
        match self.phase {
            Phase::Done(b) => Some(b),
            _ => None,
        }
    }
}

/// The level of the `i`-th ownership check: the present levels,
/// nearest first.
pub open spec fn owner_level_at(name: SecurableName, i: int) -> Level {
    if name.has_object() {
        if i == 0 {
            Level::Object
        } else if i == 1 {
            Level::Schema
        } else {
            Level::Catalog
        }
    } else if name.has_schema() {
        if i == 0 {
            Level::Schema
        } else {
            Level::Catalog
        }
    } else {
        Level::Catalog
    }
}

/// The level of the `i`-th grant collection: the present levels,
/// broadest first.
pub open spec fn grant_level_at(i: int) -> Level {
    if i == 0 {
        Level::Catalog
    } else if i == 1 {
        Level::Schema
    } else {
        Level::Object
    }
}

/// The owner names carried by a sequence of ownership records.
pub open spec fn owner_names(rs: Seq<ObjectOwnerResponse>) -> Seq<Seq<char>> {
    rs.map_values(|r: ObjectOwnerResponse| r.owner@)
}

/// The grant lists carried by a sequence of grant responses.
pub open spec fn grant_views(gs: Seq<PrivilegeAssignmentsResponse>) -> Seq<
    Option<Seq<AssignmentView>>,
> {
    gs.map_values(|g: PrivilegeAssignmentsResponse| g@)
}

/// Whether the principal owns the securable at any of its levels,
/// given the owner name answered for each present level (nearest
/// first).
pub open spec fn spec_owner_match(
    name: SecurableName,
    principal: Seq<char>,
    owners: Seq<Seq<char>>,
) -> bool {
    exists|i: int| 0 <= i < spec_num_levels(name) && owners[i] == principal
}

/// What the `i`-th grant fetch contributes to the aggregate: its
/// grants tagged with that level's name and kind, or nothing when the
/// service answered without a list.
pub open spec fn spec_grant_contrib(
    name: SecurableName,
    kind: SecurableType,
    grants: Seq<Option<Seq<AssignmentView>>>,
    i: int,
) -> Seq<AssignmentView> {
    match grants[i] {
        Some(g) => tag_all(
            g,
            spec_level_name(name, grant_level_at(i)),
            spec_level_kind(kind, grant_level_at(i)),
        ),
        None => Seq::empty(),
    }
}

/// The aggregate after the first `n` grant fetches, in fetch order.
pub open spec fn spec_collected_upto(
    name: SecurableName,
    kind: SecurableType,
    grants: Seq<Option<Seq<AssignmentView>>>,
    n: int,
) -> Seq<AssignmentView>
    decreases n,
{
    if n <= 0 {
        Seq::empty()
    } else {
        spec_collected_upto(name, kind, grants, n - 1) + spec_grant_contrib(
            name,
            kind,
            grants,
            n - 1,
        )
    }
}

/// Everything collected over the whole ancestry chain.
pub open spec fn spec_collected(
    name: SecurableName,
    kind: SecurableType,
    grants: Seq<Option<Seq<AssignmentView>>>,
) -> Seq<AssignmentView> {
    spec_collected_upto(name, kind, grants, spec_num_levels(name))
}

/// The whole authorization decision, as a function of the name, the
/// principal, the required privileges, and the records the metadata
/// service holds: the principal owns some ancestry level, or some
/// collected grant carries a required privilege. Anything else denies.
pub open spec fn spec_authorize_outcome(
    name: SecurableName,
    kind: SecurableType,
    principal: Seq<char>,
    required: Seq<Seq<char>>,
    owners: Seq<Seq<char>>,
    grants: Seq<Option<Seq<AssignmentView>>>,
) -> bool {
    spec_owner_match(name, principal, owners) || grants_allow(
        spec_collected(name, kind, grants),
        required,
    )
}

/// Runs a fresh check to completion against records already in hand:
/// `owner_answers[i]` answers the `i`-th ownership fetch the check
/// asks for, `grant_answers[i]` the `i`-th grant fetch. The result is
/// exactly the decision the metadata records dictate.
#[verifier::loop_isolation(false)]
pub fn authorize_with(
    check: Authorizer,
    owner_answers: &Vec<ObjectOwnerResponse>,
    grant_answers: Vec<PrivilegeAssignmentsResponse>,
) -> (r: bool)
    requires
        check.is_fresh(),
        owner_answers@.len() >= spec_num_levels(check.name),
        grant_answers@.len() >= spec_num_levels(check.name),
    ensures
        r == spec_authorize_outcome(
            check.name,
            check.kind,
            check.principal@,
            check.required.deep_view(),
            owner_names(owner_answers@),
            grant_views(grant_answers@),
        ),
{
    let ghost orig_grants = grant_answers@;
    let ghost owners = owner_names(owner_answers@);
    let mut remaining = grant_answers;
    let mut m = check;
    let mut oi: usize = 0;
    let mut gi: usize = 0;
    let n = m.name.segment_count();
    let nl: usize = if n >= 3 {
        3
    } else {
        n
    };
    loop
        invariant
            m.wf(),
            m.name == check.name,
            m.kind == check.kind,
            m.principal == check.principal,
            m.required == check.required,
            nl == spec_num_levels(check.name),
            oi <= nl,
            gi <= nl,
            owner_answers@.len() >= nl,
            orig_grants.len() >= nl,
            owners == owner_names(owner_answers@),
            remaining@ == orig_grants.skip(gi as int),
            (match m.phase {
                Phase::Owner(l) => {
                    &&& l == owner_level_at(check.name, oi as int)
                    &&& oi < nl
                    &&& gi == 0
                    &&& forall|j: int| 0 <= j < oi ==> #[trigger] owners[j] != check.principal@
                },
                Phase::Grants(l) => {
                    &&& oi == nl
                    &&& gi < nl
                    &&& l == grant_level_at(gi as int)
                    &&& !spec_owner_match(check.name, check.principal@, owners)
                    &&& m.collected@ == Some(
                        spec_collected_upto(
                            check.name,
                            check.kind,
                            grant_views(orig_grants),
                            gi as int,
                        ),
                    )
                },
                Phase::Done(b) => b == spec_authorize_outcome(
                    check.name,
                    check.kind,
                    check.principal@,
                    check.required.deep_view(),
                    owners,
                    grant_views(orig_grants),
                ),
            }),
        decreases 7 - oi - gi,
    {
        match m.decision() {
            Some(b) => {
                return b;
            },
            None => {},
        }
        let is_owner_phase = match m.phase {
            Phase::Owner(_) => true,
            _ => false,
        };
        if is_owner_phase {
            let rec = &owner_answers[oi];
            proof {
                assert(owners[oi as int] == rec.owner@);
            }
            m.absorb_owner(rec);
            proof {
                if rec.owner@ == check.principal@ {
                    assert(spec_owner_match(check.name, check.principal@, owners));
                } else {
                    if owner_level_at(check.name, oi as int) is Catalog {
                        assert(oi + 1 == nl);
                        assert forall|i: int|
                            0 <= i < spec_num_levels(check.name) implies #[trigger] owners[i]
                            != check.principal@ by {}
                        assert(spec_collected_upto(
                            check.name,
                            check.kind,
                            grant_views(orig_grants),
                            0,
                        ) =~= Seq::<AssignmentView>::empty());
                    }
                }
            }
            oi = oi + 1;
        } else {
            let resp = remaining.remove(0);
            proof {
                assert(resp == orig_grants.skip(gi as int)[0]);
                assert(resp == orig_grants[gi as int]);
                assert(remaining@ =~= orig_grants.skip(gi as int + 1));
                assert(grant_views(orig_grants)[gi as int] == resp@);
            }
            let ghost l = m.phase->Grants_0;
            m.absorb_grants(resp);
            proof {
                let gv = grant_views(orig_grants);
                let upto_next = spec_collected_upto(check.name, check.kind, gv, gi as int + 1);
                let upto_cur = spec_collected_upto(check.name, check.kind, gv, gi as int);
                assert(upto_next == upto_cur + spec_grant_contrib(
                    check.name,
                    check.kind,
                    gv,
                    gi as int,
                ));
                if resp@ is None {
                    assert(upto_next =~= upto_cur);
                }
                assert(m.collected@ == Some(upto_next));
                if gi + 1 == nl {
                    assert(spec_collected(check.name, check.kind, gv) == upto_next);
                }
            }
            gi = gi + 1;
        }
    }
}

/// The check only ever fetches at levels the name actually has: a
/// one-segment name gives rise to catalog-level requests alone, a
/// two-segment name adds only the schema level.
pub proof fn lemma_requests_only_present_levels(a: Authorizer)
    requires
        a.wf(),
    ensures
        a.phase matches Phase::Owner(l) ==> level_present(a.name, l),
        a.phase matches Phase::Grants(l) ==> level_present(a.name, l),
{
}

/// An ownership match at any level decides the check at once: the
/// machine lands in its terminal phase, from which `next_request`
/// returns nothing — in particular, no grant fetch follows.
pub proof fn lemma_owner_match_short_circuits(name: SecurableName, l: Level)
    ensures
        spec_owner_step(name, l, true) == Phase::Done(true),
{
}

/// Deny by default: with no ownership match and an empty grant
/// aggregate, the decision is negative.
pub proof fn lemma_deny_by_default(
    name: SecurableName,
    kind: SecurableType,
    principal: Seq<char>,
    required: Seq<Seq<char>>,
    owners: Seq<Seq<char>>,
    grants: Seq<Option<Seq<AssignmentView>>>,
)
    requires
        !spec_owner_match(name, principal, owners),
        spec_collected(name, kind, grants).len() == 0,
    ensures
        !spec_authorize_outcome(name, kind, principal, required, owners, grants),
{
}

proof fn lemma_collected_upto_congruent(
    a: SecurableName,
    b: SecurableName,
    kind: SecurableType,
    grants: Seq<Option<Seq<AssignmentView>>>,
    n: int,
)
    requires
        a@ == b@,
        a.spec_raw() == b.spec_raw(),
    ensures
        spec_collected_upto(a, kind, grants, n) == spec_collected_upto(b, kind, grants, n),
    decreases n,
{
    if n > 0 {
        lemma_collected_upto_congruent(a, b, kind, grants, n - 1);
    }
}

/// Authorization is idempotent: two checks over the same name, kind,
/// principal and required privileges, answered by the same unchanged
/// metadata records, decide the same way.
pub proof fn lemma_authorize_idempotent(
    a: Authorizer,
    b: Authorizer,
    owners: Seq<Seq<char>>,
    grants: Seq<Option<Seq<AssignmentView>>>,
)
    requires
        a.name@ == b.name@,
        a.name.spec_raw() == b.name.spec_raw(),
        a.kind == b.kind,
        a.principal@ == b.principal@,
        a.required.deep_view() == b.required.deep_view(),
    ensures
        spec_authorize_outcome(a.name, a.kind, a.principal@, a.required.deep_view(), owners, grants)
            == spec_authorize_outcome(
            b.name,
            b.kind,
            b.principal@,
            b.required.deep_view(),
            owners,
            grants,
        ),
{
    lemma_collected_upto_congruent(
        a.name,
        b.name,
        a.kind,
        grants,
        spec_num_levels(a.name),
    );
}

} // verus!
