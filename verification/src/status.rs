use vstd::prelude::*;

verus! {

/// Outcome of a completed job: how many bytes the reader consumed and how
/// many output targets received the stream.
#[derive(Debug, PartialEq, Eq)]
pub struct Status {
    pub bytes_copied: usize,
    pub num_of_files: usize,
}

/// Scale for a human-readable byte count; each step is a factor of 1024.
#[derive(Debug, PartialEq, Eq, Clone, Copy)]
pub enum Unit {
    Bytes,
    Kilobytes,
    Megabytes,
    Gigabytes,
}

pub open spec fn spec_unit_label(u: Unit) -> Seq<char> {
    match u {
        Unit::Bytes => "bytes"@,
        Unit::Kilobytes => "KB"@,
        Unit::Megabytes => "MB"@,
        Unit::Gigabytes => "GB"@,
    }
}

impl Unit {
    /// The suffix printed after a scaled byte count.
    pub fn label(&self) -> (s: &'static str)
        ensures
            s@ == spec_unit_label(*self),
    {
        match self {
            Unit::Bytes => "bytes",
            Unit::Kilobytes => "KB",
            Unit::Megabytes => "MB",
            Unit::Gigabytes => "GB",
        }
    }
}

impl Status {
    /// The byte count scaled down (integer division) by the largest unit
    /// whose threshold it reaches, with 1024 bytes to each step.
    pub fn scaled(&self) -> (r: (usize, Unit))
        ensures
            self.bytes_copied < 1024 ==> r == (self.bytes_copied, Unit::Bytes),
            1024 <= self.bytes_copied < 1024 * 1024 ==> r.0 == self.bytes_copied as int / 1024
                && r.1 == Unit::Kilobytes,
            1024 * 1024 <= self.bytes_copied < 1024 * 1024 * 1024 ==> r.0 == self.bytes_copied
                as int / (1024int * 1024) && r.1 == Unit::Megabytes,
            1024 * 1024 * 1024 <= self.bytes_copied ==> r.0 == self.bytes_copied as int / (1024int
                * 1024 * 1024) && r.1 == Unit::Gigabytes,
    {
        let b = self.bytes_copied;
        if b < 1024 {
            (b, Unit::Bytes)
        } else if b < 1024 * 1024 {
            (b / 1024, Unit::Kilobytes)
        } else if b < 1024 * 1024 * 1024 {
            (b / (1024 * 1024), Unit::Megabytes)
        } else {
            (b / (1024 * 1024 * 1024), Unit::Gigabytes)
        }
    }
}

} // verus!
