use vstd::prelude::*;

verus! {

/// The overall memory arena handed to a freshly opened writer, in bytes.
pub const DEFAULT_WRITER_MEMORY: usize = 200_000_000;

/// The fixed engine configuration used whenever a handle is attached.
pub struct Settings {
    pub writer_memory: usize,
}

impl Default for Settings {
    /// The default configuration: the stock writer memory arena.
    fn default() -> (r: Self)
        ensures
            r.writer_memory == DEFAULT_WRITER_MEMORY,
    {
        Settings { writer_memory: DEFAULT_WRITER_MEMORY }
    }
}

} // verus!
