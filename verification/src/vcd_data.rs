use vstd::prelude::*;

verus! {

/// Mathematical value of the header of a waveform file.
pub struct VCDFileView {
    pub date: Seq<char>,
    pub time_unit: Seq<char>,
    pub time_resolution: nat,
    pub comment: Seq<char>,
}

/// The header of a waveform file.
#[derive(Debug, Clone, PartialEq, Eq)]
pub struct VCDFile {
    pub date: String,
    pub time_unit: String,
    pub time_resolution: u32,
    pub comment: String,
}

impl View for VCDFile {
    type V = VCDFileView;

    open spec fn view(&self) -> VCDFileView {
        VCDFileView {
            date: self.date@,
            time_unit: self.time_unit@,
            time_resolution: self.time_resolution as nat,
            comment: self.comment@,
        }
    }
}

/// The header with nothing in it.
pub open spec fn empty_header() -> VCDFileView {
    VCDFileView { date: Seq::empty(), time_unit: Seq::empty(), time_resolution: 0, comment: Seq::empty() }
}

impl VCDFile {
    /// A header with nothing in it.
    pub fn new() -> (r: VCDFile)
        ensures
            r@ == empty_header(),
    {
        VCDFile { date: String::new(), time_unit: String::new(), time_resolution: 0, comment: String::new() }
    }
}

/// Mathematical value of a scope.
pub struct VCDScopeView {
    pub name: Seq<char>,
    pub scope_type: Seq<char>,
}

/// A scope of a waveform file: its kind and its name.
#[derive(Debug, Clone, PartialEq, Eq)]
pub struct VCDScope {
    pub name: String,
    pub scope_type: String,
}

impl View for VCDScope {
    type V = VCDScopeView;

    open spec fn view(&self) -> VCDScopeView {
        VCDScopeView { name: self.name@, scope_type: self.scope_type@ }
    }
}

} // verus!
