use vstd::prelude::*;

verus! {

/// One row of the installed programs table.
#[derive(Debug, Clone)]
pub struct InstalledProgramItem {
    pub name: String,
    pub publisher: String,
    pub install_date: String,
}

/// The text of an installed program row.
pub struct ProgramRow {
    pub name: Seq<char>,
    pub publisher: Seq<char>,
    pub install_date: Seq<char>,
}

impl View for InstalledProgramItem {
    type V = ProgramRow;

    open spec fn view(&self) -> ProgramRow {
        ProgramRow { name: self.name@, publisher: self.publisher@, install_date: self.install_date@ }
    }
}

impl InstalledProgramItem {
    pub fn new(name: &str, publisher: &str, install_date: &str) -> (r: Self)
        ensures
            r.name@ == name@,
            r.publisher@ == publisher@,
            r.install_date@ == install_date@,
    {
        InstalledProgramItem {
            name: name.to_owned(),
            publisher: publisher.to_owned(),
            install_date: install_date.to_owned(),
        }
    }
}

/// Installed programs together with warnings about sources that failed.
#[derive(Debug, Clone)]
pub struct InstalledProgramsOutput {
    pub items: Vec<InstalledProgramItem>,
    pub warnings: Vec<String>,
}

} // verus!
