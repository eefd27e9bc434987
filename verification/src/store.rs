use crate::state::{
    decoded_text, emitted_record, empty_state, loaded, reads_as, State, StateView, StorageError,
};
use vstd::prelude::*;

verus! {

/// What the store holds at one moment: the stored text, or nothing where no
/// record was written or the last one was cleared. Whoever keeps the record
/// in a file reads the file into `contents` before a load and writes
/// `contents` back after a save or a clear.
#[derive(Clone, Debug, PartialEq, Eq)]
pub struct StateStore {
    pub contents: Option<String>,
}

impl View for StateStore {
    type V = Option<Seq<char>>;

    open spec fn view(&self) -> Option<Seq<char>> {
        match self.contents {
            Some(text) => Some(text@),
            None => None,
        }
    }
}

impl StateStore {
    /// A store in which nothing was ever written.
    pub fn new() -> (store: StateStore)
        ensures
            store@ is None,
    {
        StateStore { contents: None }
    }

    /// The record in the store: the empty record where nothing is stored,
    /// else the record that the stored text stands for.
    pub fn load(&self) -> (r: Result<State, StorageError>)
        ensures
            reads_as(r, loaded(self@)),
    {
        match &self.contents {
            None => Ok(State::new()),
            Some(text) => State::from_yaml(text.as_str()),
        }
    }

    /// Replaces what is stored by the text of `state`, which is read back
    /// before it is stored: after a save, a load gives the record that was
    /// saved, every field as it was, an empty text as an empty text. It
    /// fails where the record cannot be written out, and where its text is
    /// not read back as the record; the store then keeps what it had.
    pub fn save(&mut self, state: &State) -> (r: Result<(), StorageError>)
        ensures
            match r {
                Ok(_) => {
                    &&& final(self)@ is Some
                    &&& final(self)@ == emitted_record(state@)
                    &&& loaded(final(self)@) == Ok::<StateView, StorageError>(state@)
                },
                Err(e) => {
                    &&& final(self)@ == old(self)@
                    &&& e == StorageError::Emit || e == StorageError::ReadBack
                    &&& e == StorageError::Emit <==> emitted_record(state@) is None
                    &&& e == StorageError::ReadBack ==> decoded_text(emitted_record(state@)->0)
                        != Ok::<StateView, StorageError>(state@)
                },
            },
    {
        match state.to_yaml() {
            Ok(text) => {
                let faithful = match State::from_yaml(text.as_str()) {
                    Ok(back) => back.same_as(state),
                    Err(_) => false,
                };
                if faithful {
                    self.contents = Some(text);
                    Ok(())
                } else {
                    Err(StorageError::ReadBack)
                }
            },
            Err(e) => Err(e),
        }
    }

    /// Removes what is stored. On a store that holds nothing this changes
    /// nothing.
    pub fn clear(&mut self)
        ensures
            final(self)@ == cleared(old(self)@),
            final(self)@ is None,
    {
        self.contents = None;
    }
}

/// A load from a store in which nothing was ever written gives the record
/// with no worker, no success and empty texts.
pub proof fn lemma_load_of_new_store()
    ensures
        loaded(None) == Ok::<StateView, StorageError>(empty_state()),
        empty_state().pid is None,
        empty_state().handle is None,
        !empty_state().is_success,
        empty_state().connected_domain.len() == 0,
        empty_state().connected_user.len() == 0,
        empty_state().last_network_activity.len() == 0,
{
}

/// After a clear, whatever was stored before, a load gives the empty record;
/// a second clear leaves the store as the first one did.
pub proof fn lemma_load_after_clear(before: Option<Seq<char>>)
    ensures
        loaded(cleared(before)) == Ok::<StateView, StorageError>(empty_state()),
        cleared(cleared(before)) == cleared(before),
{
}

/// What a store holds after a clear: nothing, whatever it held before.
pub open spec fn cleared(before: Option<Seq<char>>) -> Option<Seq<char>> {
    None
}

} // verus!
