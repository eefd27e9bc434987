use vstd::prelude::*;

verus! {

/// A scalar as it stands in a document: the kinds of value that a record's
/// fields can hold, and `Other` for every node that is none of them.
#[derive(Clone, Debug, PartialEq, Eq)]
pub enum Scalar {
    Null,
    Bool(bool),
    Unsigned(u64),
    Text(String),
    Other,
}

/// The mathematical value of a [`Scalar`].
pub enum ScalarView {
    Null,
    Bool(bool),
    Unsigned(u64),
    Text(Seq<char>),
    Other,
}

impl View for Scalar {
    type V = ScalarView;

    open spec fn view(&self) -> ScalarView {
        match self {
            Scalar::Null => ScalarView::Null,
            Scalar::Bool(b) => ScalarView::Bool(*b),
            Scalar::Unsigned(n) => ScalarView::Unsigned(*n),
            Scalar::Text(s) => ScalarView::Text(s@),
            Scalar::Other => ScalarView::Other,
        }
    }
}

/// The value of a scalar that may be missing.
pub open spec fn found_view(found: Option<Scalar>) -> Option<ScalarView> {
    match found {
        Some(s) => Some(s@),
        None => None,
    }
}

/// `serde_yaml::Mapping`, an insertion-ordered map from node to node.
#[verifier::external_type_specification]
#[verifier::external_body]
pub struct ExMapping(serde_yaml::Mapping);

/// `serde_yaml::Error`, carried through and turned into a storage error.
#[verifier::external_type_specification]
#[verifier::external_body]
pub struct ExYamlError(serde_yaml::Error);

/// The entries of a mapping in insertion order, each key and value reduced
/// to its scalar.
pub uninterp spec fn entries(m: serde_yaml::Mapping) -> Seq<(ScalarView, ScalarView)>;

/// `serde_yaml::Mapping::new`: a mapping without entries.
#[verifier::external_body]
pub(crate) fn mapping_new() -> (m: serde_yaml::Mapping)
    ensures
        entries(m) == Seq::<(ScalarView, ScalarView)>::empty(),
{
    serde_yaml::Mapping::new()
}

/// Position of the first entry whose key is the text `key`, if there is one.
pub open spec fn position_of(e: Seq<(ScalarView, ScalarView)>, key: Seq<char>) -> Option<int>
    decreases e.len(),
{
    if e.len() == 0 {
        None
    } else if e[0].0 == ScalarView::Text(key) {
        Some(0)
    } else {
        match position_of(e.drop_first(), key) {
            Some(i) => Some(i + 1),
            None => None,
        }
    }
}

/// What [`position_of`] finds is the first entry with the key; where it finds
/// none, no entry has the key.
pub proof fn lemma_position_of(e: Seq<(ScalarView, ScalarView)>, key: Seq<char>)
    ensures
        match position_of(e, key) {
            Some(i) => 0 <= i < e.len() && e[i].0 == ScalarView::Text(key) && forall|j: int|
                0 <= j < i ==> (#[trigger] e[j]).0 != ScalarView::Text(key),
            None => forall|j: int| 0 <= j < e.len() ==> (#[trigger] e[j]).0 != ScalarView::Text(key),
        },
    decreases e.len(),
{
    if e.len() > 0 && e[0].0 != ScalarView::Text(key) {
        let rest = e.drop_first();
        lemma_position_of(rest, key);
        match position_of(rest, key) {
            Some(i) => {
                assert forall|j: int| 0 <= j < i + 1 implies (#[trigger] e[j]).0
                    != ScalarView::Text(key) by {
                    if j > 0 {
                        assert(rest[j - 1] == e[j]);
                    }
                }
            },
            None => {
                assert forall|j: int| 0 <= j < e.len() implies (#[trigger] e[j]).0
                    != ScalarView::Text(key) by {
                    if j > 0 {
                        assert(rest[j - 1] == e[j]);
                    }
                }
            },
        }
    }
}

/// The first entry with a key is what [`position_of`] finds.
pub proof fn lemma_first_is_found(e: Seq<(ScalarView, ScalarView)>, key: Seq<char>, i: int)
    requires
        0 <= i < e.len(),
        e[i].0 == ScalarView::Text(key),
        forall|j: int| 0 <= j < i ==> (#[trigger] e[j]).0 != ScalarView::Text(key),
    ensures
        position_of(e, key) == Some(i),
        lookup(e, key) == Some(e[i].1),
{
    lemma_position_of(e, key);
}

/// Where no entry has a key, [`position_of`] finds none.
pub proof fn lemma_absent_is_not_found(e: Seq<(ScalarView, ScalarView)>, key: Seq<char>)
    requires
        forall|j: int| 0 <= j < e.len() ==> (#[trigger] e[j]).0 != ScalarView::Text(key),
    ensures
        position_of(e, key) is None,
        lookup(e, key) is None,
{
    lemma_position_of(e, key);
}

/// The value that stands under the text key `key`, if there is one.
pub open spec fn lookup(e: Seq<(ScalarView, ScalarView)>, key: Seq<char>) -> Option<ScalarView> {
    match position_of(e, key) {
        Some(i) => Some(e[i].1),
        None => None,
    }
}

/// The entries after `key` has been given the value `value`: a new key goes
/// to the end, a known key keeps its place and gets the new value.
pub open spec fn with_entry(
    e: Seq<(ScalarView, ScalarView)>,
    key: Seq<char>,
    value: ScalarView,
) -> Seq<(ScalarView, ScalarView)> {
    match position_of(e, key) {
        Some(i) => e.update(i, (ScalarView::Text(key), value)),
        None => e.push((ScalarView::Text(key), value)),
    }
}

/// `serde_yaml::Mapping::insert` with a text key. The crate keeps its entries
/// in an index map: a key that is new is appended, a key that is present
/// keeps its position and has its value replaced.
#[verifier::external_body]
pub(crate) fn mapping_insert(m: &mut serde_yaml::Mapping, key: &str, value: &Scalar)
    requires
        value@ != ScalarView::Other,
    ensures
        entries(*final(m)) == with_entry(entries(*old(m)), key@, value@),
{
    let node = match value {
        Scalar::Null => serde_yaml::Value::Null,
        Scalar::Other => serde_yaml::Value::Null,
        Scalar::Bool(b) => serde_yaml::Value::Bool(*b),
        Scalar::Unsigned(n) => serde_yaml::Value::Number(serde_yaml::Number::from(*n)),
        Scalar::Text(s) => serde_yaml::Value::String(s.clone()),
    };
    m.insert(serde_yaml::Value::String(key.to_owned()), node);
}

/// `serde_yaml::Mapping::get` with a text key: the value under that key,
/// reduced to its scalar, or `None` where no entry has that key. Keys are
/// unique in a mapping, so the first entry with the key is the only one. A
/// number is `Unsigned` where `serde_yaml::Number::as_u64` gives it, that is
/// where it is a whole number from 0 to `u64::MAX`, and `Other` else.
#[verifier::external_body]
pub(crate) fn mapping_get(m: &serde_yaml::Mapping, key: &str) -> (found: Option<Scalar>)
    ensures
        found_view(found) == lookup(entries(*m), key@),
{
    match m.get(key) {
        None => None,
        Some(serde_yaml::Value::Null) => Some(Scalar::Null),
        Some(serde_yaml::Value::Bool(b)) => Some(Scalar::Bool(*b)),
        Some(serde_yaml::Value::Number(n)) => Some(n.as_u64().map_or(Scalar::Other, Scalar::Unsigned)),
        Some(serde_yaml::Value::String(s)) => Some(Scalar::Text(s.clone())),
        Some(serde_yaml::Value::Sequence(_)) => Some(Scalar::Other),
        Some(serde_yaml::Value::Mapping(_)) => Some(Scalar::Other),
        Some(serde_yaml::Value::Tagged(_)) => Some(Scalar::Other),
    }
}

/// The text that `serde_yaml::to_string` writes for a mapping whose entries
/// all are scalars other than `Other`, or `None` where it writes none.
pub uninterp spec fn emitted_text(e: Seq<(ScalarView, ScalarView)>) -> Option<Seq<char>>;

/// Whether no key and no value of the entries is `Other`.
pub open spec fn all_scalars(e: Seq<(ScalarView, ScalarView)>) -> bool {
    forall|i: int|
        0 <= i < e.len() ==> (#[trigger] e[i]).0 != ScalarView::Other && e[i].1
            != ScalarView::Other
}

/// `serde_yaml::to_string` on a mapping. Whether the call gives a text, and
/// which, depends on the entries alone; nothing is claimed on which entries
/// it gives one for.
#[verifier::external_body]
pub(crate) fn emit(m: &serde_yaml::Mapping) -> (r: Result<String, serde_yaml::Error>)
    ensures
        all_scalars(entries(*m)) ==> match r {
            Ok(text) => emitted_text(entries(*m)) == Some(text@),
            Err(_) => emitted_text(entries(*m)) is None,
        },
{
    serde_yaml::to_string(m)
}

/// The entries of the mapping that `serde_yaml::from_str` reads from a text,
/// or `None` where it reads no mapping from it.
pub uninterp spec fn parsed_entries(text: Seq<char>) -> Option<Seq<(ScalarView, ScalarView)>>;

/// `serde_yaml::from_str` for a `Mapping`: the text's one document, which
/// has to be a mapping with no key twice. An empty document is read as the
/// mapping without entries.
#[verifier::external_body]
pub(crate) fn parse(text: &str) -> (r: Result<serde_yaml::Mapping, serde_yaml::Error>)
    ensures
        match r {
            Ok(m) => parsed_entries(text@) == Some(entries(m)),
            Err(_) => parsed_entries(text@) is None,
        },
{
    serde_yaml::from_str::<serde_yaml::Mapping>(text)
}

} // verus!
