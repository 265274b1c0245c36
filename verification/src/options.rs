use vstd::prelude::*;

verus! {

/// Maximum number of bytes a single line read returns, unless configured
/// otherwise.
pub const DEFAULT_MAX_CHUNK_SIZE: u64 = 8192;

/// Configuration for a tailer.
///
/// Constructed once through [`Options::builder`], consumed by the spawn
/// operation, never mutated afterward.
#[derive(Debug, Clone)]
pub struct Options {
    /// How many trailing lines the external utility should seed from, or
    /// `None` to leave the utility's own default in force.
    pub num_lines: Option<usize>,
    /// The maximum number of bytes a single line read may return.
    pub max_chunk_size: u64,
    /// Whether the external utility should keep running and report appended
    /// data as it arrives.
    pub follow: bool,
}

/// Builder for [`Options`]; every field starts at its default.
#[derive(Debug, Clone)]
pub struct OptionsBuilder {
    /// The trailing-line count set so far.
    pub num_lines: Option<usize>,
    /// The chunk bound set so far.
    pub max_chunk_size: u64,
    /// The follow flag set so far.
    pub follow: bool,
}

impl Options {
    /// Start building an `Options` value from the defaults: no trailing-line
    /// count, a chunk bound of [`DEFAULT_MAX_CHUNK_SIZE`] bytes, following
    /// disabled.
    pub fn builder() -> (b: OptionsBuilder)
        ensures
            b.num_lines is None,
            b.max_chunk_size == DEFAULT_MAX_CHUNK_SIZE,
            !b.follow,
    {
        OptionsBuilder { num_lines: None, max_chunk_size: DEFAULT_MAX_CHUNK_SIZE, follow: false }
    }
}

impl OptionsBuilder {
    /// Set how many trailing lines the external utility should seed from.
    pub fn num_lines(self, num_lines: Option<usize>) -> (b: Self)
        ensures
            b.num_lines == num_lines,
            b.max_chunk_size == self.max_chunk_size,
            b.follow == self.follow,
    {
        OptionsBuilder { num_lines, ..self }
    }

    /// Set the maximum number of bytes a single line read may return.
    pub fn max_chunk_size(self, max_chunk_size: u64) -> (b: Self)
        ensures
            b.num_lines == self.num_lines,
            b.max_chunk_size == max_chunk_size,
            b.follow == self.follow,
    {
        OptionsBuilder { max_chunk_size, ..self }
    }

    /// Set whether the external utility should keep watching for appended
    /// data.
    pub fn follow(self, follow: bool) -> (b: Self)
        ensures
            b.num_lines == self.num_lines,
            b.max_chunk_size == self.max_chunk_size,
            b.follow == follow,
    {
        OptionsBuilder { follow, ..self }
    }

    /// Finish building: the resulting `Options` holds exactly the fields set
    /// so far.
    pub fn build(self) -> (o: Options)
        ensures
            o.num_lines == self.num_lines,
            o.max_chunk_size == self.max_chunk_size,
            o.follow == self.follow,
    {
        Options {
            num_lines: self.num_lines,
            max_chunk_size: self.max_chunk_size,
            follow: self.follow,
        }
    }
}

} // verus!
