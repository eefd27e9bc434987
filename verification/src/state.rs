use crate::yaml::{
    all_scalars, emit, emitted_text, entries, found_view, lemma_absent_is_not_found,
    lemma_first_is_found, lookup, mapping_get, mapping_insert, mapping_new, parse, parsed_entries,
    Scalar, ScalarView,
};
use vstd::prelude::*;

verus! {

/// The two ways in which a worker process is created and later found again.
#[derive(Clone, Copy, Debug, PartialEq, Eq, Structural)]
pub enum Platform {
    /// The worker is known by its process identifier.
    Posix,
    /// The worker is known by its process identifier and a process handle.
    Handle,
}

/// The fields of a stored record, in the order in which they are written.
#[derive(Clone, Copy, Debug, PartialEq, Eq, Structural)]
pub enum Field {
    Pid,
    Handle,
    IsSuccess,
    ConnectedDomain,
    ConnectedUser,
    LastNetworkActivity,
}

/// Why a record could not be read from, or written to, its stored form.
#[derive(Clone, Copy, Debug, PartialEq, Eq, Structural)]
pub enum StorageError {
    /// The stored text is no document that holds one mapping.
    Syntax,
    /// A field that has no default is not in the mapping.
    Missing(Field),
    /// A field holds a value of another type, or a number out of range.
    Invalid(Field),
    /// The record could not be written out as text.
    Emit,
    /// The text written for the record is not read back as the record.
    ReadBack,
}

/// The record that the controller and the worker share.
#[derive(Clone, Debug, PartialEq, Eq)]
pub struct State {
    /// Process identifier of the worker; `None` while no worker is recorded.
    pub pid: Option<u32>,
    /// Process handle of the worker, on the platform that has one.
    pub handle: Option<u64>,
    /// Whether the worker last saw the connection succeed.
    pub is_success: bool,
    pub connected_domain: String,
    pub connected_user: String,
    /// Marker of the last network activity; empty until there was one.
    pub last_network_activity: String,
}

/// The mathematical value of a [`State`].
pub struct StateView {
    pub pid: Option<u32>,
    pub handle: Option<u64>,
    pub is_success: bool,
    pub connected_domain: Seq<char>,
    pub connected_user: Seq<char>,
    pub last_network_activity: Seq<char>,
}

impl View for State {
    type V = StateView;

    open spec fn view(&self) -> StateView {
        StateView {
            pid: self.pid,
            handle: self.handle,
            is_success: self.is_success,
            connected_domain: self.connected_domain@,
            connected_user: self.connected_user@,
            last_network_activity: self.last_network_activity@,
        }
    }
}

/// The record of a store that was never written: no worker, no success, all
/// texts empty.
pub open spec fn empty_state() -> StateView {
    StateView {
        pid: None,
        handle: None,
        is_success: false,
        connected_domain: Seq::empty(),
        connected_user: Seq::empty(),
        last_network_activity: Seq::empty(),
    }
}

/// The identity by which the platform knows the worker that a record names:
/// the process identifier, or the process handle where the platform has one.
pub open spec fn identity_of(state: StateView, platform: Platform) -> Option<u64> {
    match platform {
        Platform::Posix => match state.pid {
            Some(pid) => Some(pid as u64),
            None => None,
        },
        Platform::Handle => state.handle,
    }
}

/// The key under which a field is stored.
pub open spec fn key_of(field: Field) -> Seq<char> {
    match field {
        Field::Pid => "pid"@,
        Field::Handle => "handle"@,
        Field::IsSuccess => "is_success"@,
        Field::ConnectedDomain => "connected_domain"@,
        Field::ConnectedUser => "connected_user"@,
        Field::LastNetworkActivity => "last_network_activity"@,
    }
}

/// An optional number as a scalar: `Null` stands for the absent one.
pub open spec fn optional_u32_scalar(n: Option<u32>) -> ScalarView {
    match n {
        Some(n) => ScalarView::Unsigned(n as u64),
        None => ScalarView::Null,
    }
}

/// An optional number as a scalar: `Null` stands for the absent one.
pub open spec fn optional_u64_scalar(n: Option<u64>) -> ScalarView {
    match n {
        Some(n) => ScalarView::Unsigned(n),
        None => ScalarView::Null,
    }
}

/// The six entries that stand for a record, in the order of [`Field`].
pub open spec fn fields_of(s: StateView) -> Seq<(ScalarView, ScalarView)> {
    seq![
        (ScalarView::Text(key_of(Field::Pid)), optional_u32_scalar(s.pid)),
        (ScalarView::Text(key_of(Field::Handle)), optional_u64_scalar(s.handle)),
        (ScalarView::Text(key_of(Field::IsSuccess)), ScalarView::Bool(s.is_success)),
        (ScalarView::Text(key_of(Field::ConnectedDomain)), ScalarView::Text(s.connected_domain)),
        (ScalarView::Text(key_of(Field::ConnectedUser)), ScalarView::Text(s.connected_user)),
        (
            ScalarView::Text(key_of(Field::LastNetworkActivity)),
            ScalarView::Text(s.last_network_activity),
        ),
    ]
}

/// Reads an optional 32-bit number: a missing entry and `Null` are the absent
/// number, a number that fits is itself, anything else is refused.
pub open spec fn read_optional_u32(found: Option<ScalarView>, field: Field) -> Result<
    Option<u32>,
    StorageError,
> {
    match found {
        None => Ok(None),
        Some(ScalarView::Null) => Ok(None),
        Some(ScalarView::Unsigned(n)) => if n <= u32::MAX {
            Ok(Some(n as u32))
        } else {
            Err(StorageError::Invalid(field))
        },
        Some(_) => Err(StorageError::Invalid(field)),
    }
}

/// Reads an optional 64-bit number: a missing entry and `Null` are the absent
/// number, a number is itself, anything else is refused.
pub open spec fn read_optional_u64(found: Option<ScalarView>, field: Field) -> Result<
    Option<u64>,
    StorageError,
> {
    match found {
        None => Ok(None),
        Some(ScalarView::Null) => Ok(None),
        Some(ScalarView::Unsigned(n)) => Ok(Some(n)),
        Some(_) => Err(StorageError::Invalid(field)),
    }
}

/// Reads a flag, which has to be there and be a boolean.
pub open spec fn read_bool(found: Option<ScalarView>, field: Field) -> Result<bool, StorageError> {
    match found {
        None => Err(StorageError::Missing(field)),
        Some(ScalarView::Bool(b)) => Ok(b),
        Some(_) => Err(StorageError::Invalid(field)),
    }
}

/// Reads a text, which has to be there and be a text. A value that the
/// document gives as a number, a boolean or null is refused and not taken
/// for its characters: `connected_user: 123` is invalid, `connected_user:
/// '123'` is the text `123`. A save quotes such texts, so what a save wrote
/// is always read.
pub open spec fn read_text(found: Option<ScalarView>, field: Field) -> Result<
    Seq<char>,
    StorageError,
> {
    match found {
        None => Err(StorageError::Missing(field)),
        Some(ScalarView::Text(t)) => Ok(t),
        Some(_) => Err(StorageError::Invalid(field)),
    }
}

/// The record that six looked-up values stand for, or the error of the first
/// field, in the order of [`Field`], that cannot be read.
pub open spec fn record_of(
    pid: Option<ScalarView>,
    handle: Option<ScalarView>,
    is_success: Option<ScalarView>,
    connected_domain: Option<ScalarView>,
    connected_user: Option<ScalarView>,
    last_network_activity: Option<ScalarView>,
) -> Result<StateView, StorageError> {
    match read_optional_u32(pid, Field::Pid) {
        Err(e) => Err(e),
        Ok(pid) => match read_optional_u64(handle, Field::Handle) {
            Err(e) => Err(e),
            Ok(handle) => match read_bool(is_success, Field::IsSuccess) {
                Err(e) => Err(e),
                Ok(is_success) => match read_text(connected_domain, Field::ConnectedDomain) {
                    Err(e) => Err(e),
                    Ok(connected_domain) => match read_text(
                        connected_user,
                        Field::ConnectedUser,
                    ) {
                        Err(e) => Err(e),
                        Ok(connected_user) => match read_text(
                            last_network_activity,
                            Field::LastNetworkActivity,
                        ) {
                            Err(e) => Err(e),
                            Ok(last_network_activity) => Ok(
                                StateView {
                                    pid,
                                    handle,
                                    is_success,
                                    connected_domain,
                                    connected_user,
                                    last_network_activity,
                                },
                            ),
                        },
                    },
                },
            },
        },
    }
}

/// The record that a mapping's entries stand for. Entries under other keys
/// are passed over.
pub open spec fn decoded(e: Seq<(ScalarView, ScalarView)>) -> Result<StateView, StorageError> {
    record_of(
        lookup(e, key_of(Field::Pid)),
        lookup(e, key_of(Field::Handle)),
        lookup(e, key_of(Field::IsSuccess)),
        lookup(e, key_of(Field::ConnectedDomain)),
        lookup(e, key_of(Field::ConnectedUser)),
        lookup(e, key_of(Field::LastNetworkActivity)),
    )
}

/// The text under which a record is stored, or `None` where it cannot be
/// written out.
pub open spec fn emitted_record(s: StateView) -> Option<Seq<char>> {
    emitted_text(fields_of(s))
}

/// The record that a stored text stands for.
pub open spec fn decoded_text(text: Seq<char>) -> Result<StateView, StorageError> {
    match parsed_entries(text) {
        Some(e) => decoded(e),
        None => Err(StorageError::Syntax),
    }
}

/// What a load returns on a store with the given contents: the empty record
/// where nothing is stored, else what the stored text stands for.
pub open spec fn loaded(contents: Option<Seq<char>>) -> Result<StateView, StorageError> {
    match contents {
        None => Ok(empty_state()),
        Some(text) => decoded_text(text),
    }
}

/// Whether a result of reading is the given outcome, records taken by view.
pub open spec fn reads_as(r: Result<State, StorageError>, o: Result<StateView, StorageError>) -> bool {
    match r {
        Ok(s) => o == Ok::<StateView, StorageError>(s@),
        Err(e) => o == Err::<StateView, StorageError>(e),
    }
}

/// No two fields share a key.
pub proof fn lemma_keys_differ()
    ensures
        forall|f: Field, g: Field| f != g ==> #[trigger] key_of(f) != #[trigger] key_of(g),
{
    reveal_strlit("pid");
    reveal_strlit("handle");
    reveal_strlit("is_success");
    reveal_strlit("connected_domain");
    reveal_strlit("connected_user");
    reveal_strlit("last_network_activity");
    assert forall|f: Field, g: Field| f != g implies #[trigger] key_of(f) != #[trigger] key_of(
        g,
    ) by {
        assert(key_of(f).len() != key_of(g).len());
    }
}

/// Each field is found in the entries of a record, with its own value.
pub proof fn lemma_fields_found(s: StateView)
    ensures
        lookup(fields_of(s), key_of(Field::Pid)) == Some(optional_u32_scalar(s.pid)),
        lookup(fields_of(s), key_of(Field::Handle)) == Some(optional_u64_scalar(s.handle)),
        lookup(fields_of(s), key_of(Field::IsSuccess)) == Some(ScalarView::Bool(s.is_success)),
        lookup(fields_of(s), key_of(Field::ConnectedDomain)) == Some(
            ScalarView::Text(s.connected_domain),
        ),
        lookup(fields_of(s), key_of(Field::ConnectedUser)) == Some(
            ScalarView::Text(s.connected_user),
        ),
        lookup(fields_of(s), key_of(Field::LastNetworkActivity)) == Some(
            ScalarView::Text(s.last_network_activity),
        ),
{
    let e = fields_of(s);
    lemma_keys_differ();
    lemma_first_is_found(e, key_of(Field::Pid), 0);
    lemma_first_is_found(e, key_of(Field::Handle), 1);
    lemma_first_is_found(e, key_of(Field::IsSuccess), 2);
    lemma_first_is_found(e, key_of(Field::ConnectedDomain), 3);
    lemma_first_is_found(e, key_of(Field::ConnectedUser), 4);
    lemma_first_is_found(e, key_of(Field::LastNetworkActivity), 5);
}

/// Reading back the entries that stand for a record gives that record: the
/// six fields keep their values, an absent number stays absent and an empty
/// text stays an empty text.
pub proof fn lemma_fields_round_trip(s: StateView)
    ensures
        decoded(fields_of(s)) == Ok::<StateView, StorageError>(s),
{
    lemma_fields_found(s);
}

fn optional_u32(found: &Option<Scalar>, field: Field) -> (r: Result<Option<u32>, StorageError>)
    ensures
        r == read_optional_u32(found_view(*found), field),
{
    match found {
        None => Ok(None),
        Some(Scalar::Null) => Ok(None),
        Some(Scalar::Unsigned(n)) => {
            if *n <= 0xffff_ffff {
                Ok(Some(*n as u32))
            } else {
                Err(StorageError::Invalid(field))
            }
        },
        Some(_) => Err(StorageError::Invalid(field)),
    }
}

fn optional_u64(found: &Option<Scalar>, field: Field) -> (r: Result<Option<u64>, StorageError>)
    ensures
        r == read_optional_u64(found_view(*found), field),
{
    match found {
        None => Ok(None),
        Some(Scalar::Null) => Ok(None),
        Some(Scalar::Unsigned(n)) => Ok(Some(*n)),
        Some(_) => Err(StorageError::Invalid(field)),
    }
}

fn flag(found: &Option<Scalar>, field: Field) -> (r: Result<bool, StorageError>)
    ensures
        r == read_bool(found_view(*found), field),
{
    match found {
        None => Err(StorageError::Missing(field)),
        Some(Scalar::Bool(b)) => Ok(*b),
        Some(_) => Err(StorageError::Invalid(field)),
    }
}

fn text(found: Option<Scalar>, field: Field) -> (r: Result<String, StorageError>)
    ensures
        match r {
            Ok(t) => read_text(found_view(found), field) == Ok::<Seq<char>, StorageError>(
                t@,
            ),
            Err(e) => read_text(found_view(found), field) == Err::<Seq<char>, StorageError>(
                e,
            ),
        },
{
    match found {
        None => Err(StorageError::Missing(field)),
        Some(Scalar::Text(t)) => Ok(t),
        Some(_) => Err(StorageError::Invalid(field)),
    }
}

impl State {
    /// The record of a store that was never written.
    pub fn new() -> (s: State)
        ensures
            s@ == empty_state(),
    {
        State {
            pid: None,
            handle: None,
            is_success: false,
            connected_domain: String::new(),
            connected_user: String::new(),
            last_network_activity: String::new(),
        }
    }

    /// The identity by which the platform knows the recorded worker, `None`
    /// where the record names none.
    pub fn identity(&self, platform: Platform) -> (id: Option<u64>)
        ensures
            id == identity_of(self@, platform),
    {
        match platform {
            Platform::Posix => match self.pid {
                Some(pid) => Some(pid as u64),
                None => None,
            },
            Platform::Handle => self.handle,
        }
    }

    /// Whether two records are the same, field by field.
    pub fn same_as(&self, other: &State) -> (same: bool)
        ensures
            same == (self@ == other@),
    {
        let pid = match (self.pid, other.pid) {
            (Some(a), Some(b)) => a == b,
            (None, None) => true,
            _ => false,
        };
        let handle = match (self.handle, other.handle) {
            (Some(a), Some(b)) => a == b,
            (None, None) => true,
            _ => false,
        };
        pid && handle && self.is_success == other.is_success && self.connected_domain
            == other.connected_domain && self.connected_user == other.connected_user
            && self.last_network_activity == other.last_network_activity
    }

    /// Builds the record from the six values found under its keys, `None`
    /// for a key that is not there.
    pub fn from_fields(
        pid: Option<Scalar>,
        handle: Option<Scalar>,
        is_success: Option<Scalar>,
        connected_domain: Option<Scalar>,
        connected_user: Option<Scalar>,
        last_network_activity: Option<Scalar>,
    ) -> (r: Result<State, StorageError>)
        ensures
            reads_as(
                r,
                record_of(
                    found_view(pid),
                    found_view(handle),
                    found_view(is_success),
                    found_view(connected_domain),
                    found_view(connected_user),
                    found_view(last_network_activity),
                ),
            ),
    {
        let pid = match optional_u32(&pid, Field::Pid) {
            Ok(v) => v,
            Err(e) => return Err(e),
        };
        let handle = match optional_u64(&handle, Field::Handle) {
            Ok(v) => v,
            Err(e) => return Err(e),
        };
        let is_success = match flag(&is_success, Field::IsSuccess) {
            Ok(v) => v,
            Err(e) => return Err(e),
        };
        let connected_domain = match text(connected_domain, Field::ConnectedDomain) {
            Ok(v) => v,
            Err(e) => return Err(e),
        };
        let connected_user = match text(connected_user, Field::ConnectedUser) {
            Ok(v) => v,
            Err(e) => return Err(e),
        };
        let last_network_activity = match text(last_network_activity, Field::LastNetworkActivity) {
            Ok(v) => v,
            Err(e) => return Err(e),
        };
        Ok(State { pid, handle, is_success, connected_domain, connected_user, last_network_activity })
    }

    /// Reads the record from a mapping. Entries under other keys are passed
    /// over.
    pub fn from_mapping(m: &serde_yaml::Mapping) -> (r: Result<State, StorageError>)
        ensures
            reads_as(r, decoded(entries(*m))),
    {
        State::from_fields(
            mapping_get(m, "pid"),
            mapping_get(m, "handle"),
            mapping_get(m, "is_success"),
            mapping_get(m, "connected_domain"),
            mapping_get(m, "connected_user"),
            mapping_get(m, "last_network_activity"),
        )
    }

    /// The mapping that stands for the record: its six fields in order.
    pub fn to_mapping(&self) -> (m: serde_yaml::Mapping)
        ensures
            entries(m) == fields_of(self@),
    {
        let pid = match self.pid {
            Some(n) => Scalar::Unsigned(n as u64),
            None => Scalar::Null,
        };
        let handle = match self.handle {
            Some(n) => Scalar::Unsigned(n),
            None => Scalar::Null,
        };
        let mut m = mapping_new();
        proof {
            lemma_keys_differ();
            lemma_absent_is_not_found(entries(m), key_of(Field::Pid));
        }
        mapping_insert(&mut m, "pid", &pid);
        proof {
            lemma_absent_is_not_found(entries(m), key_of(Field::Handle));
        }
        mapping_insert(&mut m, "handle", &handle);
        proof {
            lemma_absent_is_not_found(entries(m), key_of(Field::IsSuccess));
        }
        mapping_insert(&mut m, "is_success", &Scalar::Bool(self.is_success));
        proof {
            lemma_absent_is_not_found(entries(m), key_of(Field::ConnectedDomain));
        }
        mapping_insert(&mut m, "connected_domain", &Scalar::Text(self.connected_domain.clone()));
        proof {
            lemma_absent_is_not_found(entries(m), key_of(Field::ConnectedUser));
        }
        mapping_insert(&mut m, "connected_user", &Scalar::Text(self.connected_user.clone()));
        proof {
            lemma_absent_is_not_found(entries(m), key_of(Field::LastNetworkActivity));
        }
        mapping_insert(
            &mut m,
            "last_network_activity",
            &Scalar::Text(self.last_network_activity.clone()),
        );
        assert(entries(m) =~= fields_of(self@));
        m
    }

    /// The text under which the record is stored: the mapping of its six
    /// fields, written out. The error comes exactly where that mapping
    /// cannot be written out.
    pub fn to_yaml(&self) -> (r: Result<String, StorageError>)
        ensures
            match r {
                Ok(text) => emitted_record(self@) == Some(text@),
                Err(e) => e == StorageError::Emit && emitted_record(self@) is None,
            },
    {
        let m = self.to_mapping();
        assert(all_scalars(entries(m)));
        match emit(&m) {
            Ok(text) => Ok(text),
            Err(_) => Err(StorageError::Emit),
        }
    }

    /// Reads the record from a stored text.
    pub fn from_yaml(text: &str) -> (r: Result<State, StorageError>)
        ensures
            reads_as(r, decoded_text(text@)),
    {
        match parse(text) {
            Ok(m) => State::from_mapping(&m),
            Err(_) => Err(StorageError::Syntax),
        }
    }
}

} // verus!
