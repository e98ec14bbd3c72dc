use vstd::prelude::*;

use crate::text::str_eq;

verus! {

/// The kinds of securable object the catalog manages.
///
/// Every kind has exactly one lowercase wire token, used when building
/// request paths; the conversion is total in both directions.
#[derive(Debug, Clone, Copy, PartialEq, Eq, Structural)]
pub enum SecurableType {
    Catalog,
    Schema,
    Table,
    StorageCredential,
    ExternalLocation,
    Function,
    Share,
    Provider,
    Recipient,
    Metastore,
    Volume,
    Connection,
}

impl SecurableType {
    /// The wire token of this kind.
    pub open spec fn spec_token(self) -> Seq<char> {
        match self {
            SecurableType::Catalog => "catalog"@,
            SecurableType::Schema => "schema"@,
            SecurableType::Table => "table"@,
            SecurableType::StorageCredential => "storage_credential"@,
            SecurableType::ExternalLocation => "external_location"@,
            SecurableType::Function => "function"@,
            SecurableType::Share => "share"@,
            SecurableType::Provider => "provider"@,
            SecurableType::Recipient => "recipient"@,
            SecurableType::Metastore => "metastore"@,
            SecurableType::Volume => "volume"@,
            SecurableType::Connection => "connection"@,
        }
    }

    /// The kind a wire token denotes, if any.
    pub open spec fn spec_from_token(s: Seq<char>) -> Option<SecurableType> {
        if s == "catalog"@ {
            Some(SecurableType::Catalog)
        } else if s == "schema"@ {
            Some(SecurableType::Schema)
        } else if s == "table"@ {
            Some(SecurableType::Table)
        } else if s == "storage_credential"@ {
            Some(SecurableType::StorageCredential)
        } else if s == "external_location"@ {
            Some(SecurableType::ExternalLocation)
        } else if s == "function"@ {
            Some(SecurableType::Function)
        } else if s == "share"@ {
            Some(SecurableType::Share)
        } else if s == "provider"@ {
            Some(SecurableType::Provider)
        } else if s == "recipient"@ {
            Some(SecurableType::Recipient)
        } else if s == "metastore"@ {
            Some(SecurableType::Metastore)
        } else if s == "volume"@ {
            Some(SecurableType::Volume)
        } else if s == "connection"@ {
            Some(SecurableType::Connection)
        } else {
            None
        }
    }

    /// Renders the wire token of this kind.
    pub fn token_string(&self) -> (r: String)
        ensures
            r@ == self.spec_token(),
    {
        match self {
            SecurableType::Catalog => String::from_str("catalog"),
            SecurableType::Schema => String::from_str("schema"),
            SecurableType::Table => String::from_str("table"),
            SecurableType::StorageCredential => String::from_str("storage_credential"),
            SecurableType::ExternalLocation => String::from_str("external_location"),
            SecurableType::Function => String::from_str("function"),
            SecurableType::Share => String::from_str("share"),
            SecurableType::Provider => String::from_str("provider"),
            SecurableType::Recipient => String::from_str("recipient"),
            SecurableType::Metastore => String::from_str("metastore"),
            SecurableType::Volume => String::from_str("volume"),
            SecurableType::Connection => String::from_str("connection"),
        }
    }

    /// Decodes a wire token; an unknown token is a decode failure,
    /// reported as `None`.
    pub fn from_token(s: &str) -> (r: Option<SecurableType>)
        ensures
            r == Self::spec_from_token(s@),
    {
        if str_eq(s, "catalog") {
            Some(SecurableType::Catalog)
        } else if str_eq(s, "schema") {
            Some(SecurableType::Schema)
        } else if str_eq(s, "table") {
            Some(SecurableType::Table)
        } else if str_eq(s, "storage_credential") {
            Some(SecurableType::StorageCredential)
        } else if str_eq(s, "external_location") {
            Some(SecurableType::ExternalLocation)
        } else if str_eq(s, "function") {
            Some(SecurableType::Function)
        } else if str_eq(s, "share") {
            Some(SecurableType::Share)
        } else if str_eq(s, "provider") {
            Some(SecurableType::Provider)
        } else if str_eq(s, "recipient") {
            Some(SecurableType::Recipient)
        } else if str_eq(s, "metastore") {
            Some(SecurableType::Metastore)
        } else if str_eq(s, "volume") {
            Some(SecurableType::Volume)
        } else if str_eq(s, "connection") {
            Some(SecurableType::Connection)
        } else {
            None
        }
    }
}

/// The kind-to-token mapping is injective, so decoding a rendered token
/// always restores the kind: the conversion is a bijection between the
/// twelve kinds and their twelve tokens.
pub proof fn lemma_token_round_trip(t: SecurableType)
    ensures
        SecurableType::spec_from_token(t.spec_token()) == Some(t),
{
    broadcast use vstd::string::group_string_axioms;

    reveal_strlit("catalog");
    reveal_strlit("schema");
    reveal_strlit("table");
    reveal_strlit("storage_credential");
    reveal_strlit("external_location");
    reveal_strlit("function");
    reveal_strlit("share");
    reveal_strlit("provider");
    reveal_strlit("recipient");
    reveal_strlit("metastore");
    reveal_strlit("volume");
    reveal_strlit("connection");
    assert(("catalog"@).len() == 7);
    assert(("schema"@).len() == 6);
    assert(("table"@).len() == 5);
    assert(("storage_credential"@).len() == 18);
    assert(("external_location"@).len() == 17);
    assert(("function"@).len() == 8);
    assert(("share"@).len() == 5);
    assert(("provider"@).len() == 8);
    assert(("recipient"@).len() == 9);
    assert(("metastore"@).len() == 9);
    assert(("volume"@).len() == 6);
    assert(("connection"@).len() == 10);
    assert(("share"@)[0] == 's' && ("table"@)[0] == 't');
    assert(("volume"@)[0] == 'v' && ("schema"@)[0] == 's');
    assert(("provider"@)[0] == 'p' && ("function"@)[0] == 'f');
    assert(("metastore"@)[0] == 'm' && ("recipient"@)[0] == 'r');
}

/// True when `s` contains no `.` separator.
pub open spec fn dot_free(s: Seq<char>) -> bool {
    forall|i: int| 0 <= i < s.len() ==> s[i] != '.'
}

/// The segments of a name joined back with `.` separators.
pub open spec fn spec_join(parts: Seq<Seq<char>>) -> Seq<char>
    decreases parts.len(),
{
    if parts.len() == 0 {
        Seq::empty()
    } else if parts.len() == 1 {
        parts[0]
    } else {
        parts[0] + seq!['.'] + spec_join(parts.drop_first())
    }
}

/// Joining after appending one more segment splices it on the right.
pub proof fn lemma_join_push(parts: Seq<Seq<char>>, p: Seq<char>)
    ensures
        parts.len() == 0 ==> spec_join(parts.push(p)) == p,
        parts.len() > 0 ==> spec_join(parts.push(p)) == spec_join(parts) + seq!['.'] + p,
    decreases parts.len(),
{
    if parts.len() == 0 {
        assert(parts.push(p)[0] == p);
        assert(spec_join(parts.push(p)) == p);
    } else if parts.len() == 1 {
        let joined = parts.push(p);
        assert(joined.drop_first() =~= seq![p]);
        assert(spec_join(joined) == joined[0] + seq!['.'] + spec_join(joined.drop_first()));
        assert(spec_join(joined) == parts[0] + seq!['.'] + p);
    } else {
        lemma_join_push(parts.drop_first(), p);
        let joined = parts.push(p);
        assert(joined.drop_first() =~= parts.drop_first().push(p));
        assert(spec_join(joined) == joined[0] + seq!['.'] + spec_join(joined.drop_first()));
        assert(spec_join(parts) + seq!['.'] + p =~= parts[0] + seq!['.'] + (spec_join(
            parts.drop_first(),
        ) + seq!['.'] + p));
        assert(spec_join(joined) =~= spec_join(parts) + seq!['.'] + p);
    }
}

/// A dot-delimited securable identifier.
///
/// A name always has at least one segment: segment 0 is the catalog, an
/// optional segment 1 the schema, and an optional segment 2 the object
/// itself. Parsing is deliberately tolerant — no segment count is
/// rejected — and checks at levels whose segment is missing are simply
/// skipped by the callers.
pub struct SecurableName {
    pub raw: String,
    pub segments: Vec<String>,
}

impl SecurableName {
    /// The segments, as mathematical strings.
    pub open spec fn view(self) -> Seq<Seq<char>> {
        self.segments.deep_view()
    }

    /// Well-formedness: at least a catalog segment, no segment contains
    /// a separator, and the raw text is exactly the joined segments.
    pub open spec fn wf(self) -> bool {
        &&& self@.len() >= 1
        &&& forall|i: int| 0 <= i < self@.len() ==> dot_free(#[trigger] self@[i])
        &&& self.raw@ == spec_join(self@)
    }

    /// The raw, undecomposed text of the name.
    pub open spec fn spec_raw(self) -> Seq<char> {
        self.raw@
    }

    /// A schema segment is present.
    pub open spec fn has_schema(self) -> bool {
        self@.len() >= 2
    }

    /// An object segment below the schema is present.
    pub open spec fn has_object(self) -> bool {
        self@.len() >= 3
    }

    /// The name of the enclosing schema, as fetched: `catalog.schema`.
    pub open spec fn spec_schema_name(self) -> Seq<char> {
        self@[0] + seq!['.'] + self@[1]
    }

    /// Splits a full name on `.` separators. Never fails: a name
    /// without separators is a catalog-only name of one segment.
    pub fn parse(full: &str) -> (r: SecurableName)
        ensures
            r.wf(),
            r.spec_raw() == full@,
    {
        let n = full.unicode_len();
        let mut segments: Vec<String> = Vec::new();
        let mut start: usize = 0;
        let mut i: usize = 0;
        while i < n
            invariant
                start <= i <= n,
                n == full@.len(),
                forall|k: int|
                    0 <= k < segments.deep_view().len() ==> dot_free(
                        #[trigger] segments.deep_view()[k],
                    ),
                dot_free(full@.subrange(start as int, i as int)),
                segments@.len() == 0 ==> start == 0,
                segments@.len() > 0 ==> start >= 1 && full@[start as int - 1] == '.' && spec_join(
                    segments.deep_view(),
                ) == full@.subrange(0, start as int - 1),
            decreases n - i,
        {
            if full.get_char(i) == '.' {
                let ghost old_segments = segments.deep_view();
                let seg = full.substring_char(start, i).to_owned();
                segments.push(seg);
                proof {
                    assert(segments.deep_view() =~= old_segments.push(seg@));
                    lemma_join_push(old_segments, seg@);
                    if old_segments.len() == 0 {
                        assert(spec_join(segments.deep_view()) =~= full@.subrange(0, i as int));
                    } else {
                        assert(spec_join(segments.deep_view()) =~= full@.subrange(0, start as int
                            - 1) + seq!['.'] + full@.subrange(start as int, i as int));
                        assert(spec_join(segments.deep_view()) =~= full@.subrange(0, i as int));
                    }
                }
                start = i + 1;
                i = i + 1;
                proof {
                    assert(full@.subrange(start as int, i as int) =~= Seq::<char>::empty());
                }
            } else {
                i = i + 1;
                proof {
                    assert(full@.subrange(start as int, i as int) =~= full@.subrange(
                        start as int,
                        i as int - 1,
                    ).push(full@[i as int - 1]));
                }
            }
        }
        let ghost old_segments = segments.deep_view();
        let seg = full.substring_char(start, n).to_owned();
        segments.push(seg);
        let raw = full.to_owned();
        proof {
            assert(segments.deep_view() =~= old_segments.push(seg@));
            lemma_join_push(old_segments, seg@);
            if old_segments.len() == 0 {
                assert(spec_join(segments.deep_view()) =~= full@);
            } else {
                assert(spec_join(segments.deep_view()) =~= full@.subrange(0, start as int - 1)
                    + seq!['.'] + full@.subrange(start as int, n as int));
                assert(spec_join(segments.deep_view()) =~= full@);
            }
        }
        SecurableName { raw, segments }
    }

    /// How many segments the name has.
    pub fn segment_count(&self) -> (r: usize)
        ensures
            r == self@.len(),
    {
        self.segments.len()
    }

    /// The catalog segment.
    pub fn catalog_name(&self) -> (r: String)
        requires
            self.wf(),
        ensures
            r@ == self@[0],
    {
        self.segments[0].clone()
    }

    /// The two-segment schema name, `catalog.schema`.
    pub fn schema_name(&self) -> (r: String)
        requires
            self.wf(),
            self.has_schema(),
        ensures
            r@ == self.spec_schema_name(),
    {
        let mut r = self.segments[0].clone();
        r.append(".");
        r.append(self.segments[1].as_str());
        proof {
            reveal_strlit(".");
            assert(r@ =~= self.spec_schema_name());
        }
        r
    }

    /// The full name of the object itself: the raw text.
    pub fn object_name(&self) -> (r: String)
        ensures
            r@ == self.spec_raw(),
    {
        self.raw.clone()
    }
}

} // verus!
