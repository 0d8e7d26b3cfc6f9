use vstd::prelude::*;

verus! {

/// The single shared clipboard value.
///
/// Created empty at process start and replaced wholesale by successful
/// upload commands; reads always observe a whole value, never a partial
/// write. The store knows nothing of connections or commands. Callers that
/// share it across workers guard it with mutual exclusion; `get` and `set`
/// themselves each touch the value exactly once.
pub struct ClipboardStore {
    value: String,
}

impl View for ClipboardStore {
    type V = Seq<char>;

    closed spec fn view(&self) -> Seq<char> {
        self.value@
    }
}

impl ClipboardStore {
    /// Creates a store holding the empty value.
    pub fn new() -> (s: Self)
        ensures
            s@ == Seq::<char>::empty(),
    {
        ClipboardStore { value: String::new() }
    }

    /// Returns the current value; never fails.
    pub fn get(&self) -> (r: String)
        ensures
            r@ == self@,
    {
        self.value.clone()
    }

    /// Replaces the value wholesale; never fails.
    pub fn set(&mut self, new_value: String)
        ensures
            final(self)@ == new_value@,
    {
        self.value = new_value;
    }
}

} // verus!
