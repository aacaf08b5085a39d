//! What a run is given and what it learns: the validated project and the
//! addresses that the key tools report.

use vstd::prelude::*;
use vstd::string::StringExecFns;

use crate::is_valid_project_name;
use crate::valid_project_name;

verus! {

/// The mathematical content of a `ProjectSpec`.
pub struct ProjectSpecView {
    pub name: Seq<char>,
    pub root_dir: Seq<char>,
}

/// A project to create: its name and the directory it is created in, which
/// carries the same name. A value of this type exists only for a valid name,
/// and nothing changes it afterwards.
pub struct ProjectSpec {
    name: String,
    root_dir: String,
}

impl View for ProjectSpec {
    type V = ProjectSpecView;

    closed spec fn view(&self) -> ProjectSpecView {
        ProjectSpecView { name: self.name@, root_dir: self.root_dir@ }
    }
}

impl ProjectSpec {
    #[verifier::type_invariant]
    spec fn well_formed(&self) -> bool {
        valid_project_name(self.name@) && self.root_dir@ == self.name@
    }

    /// The project called `name`, if that is a valid project name.
    pub fn new(name: &str) -> (project: Option<ProjectSpec>)
        ensures
            project is Some <==> valid_project_name(name@),
            project matches Some(p) ==> p@.name == name@ && p@.root_dir == name@,
    {
        if is_valid_project_name(name) {
            Some(ProjectSpec { name: String::from_str(name), root_dir: String::from_str(name) })
        } else {
            None
        }
    }

    /// The name of the project, which is valid.
    pub fn name(&self) -> (name: &str)
        ensures
            name@ == self@.name,
            valid_project_name(name@),
    {
        proof {
            use_type_invariant(self);
        }
        self.name.as_str()
    }

    /// The directory of the project, relative to where the run started.
    pub fn root_dir(&self) -> (dir: &str)
        ensures
            dir@ == self@.root_dir,
            dir@ == self@.name,
    {
        proof {
            use_type_invariant(self);
        }
        self.root_dir.as_str()
    }
}

/// The mathematical content of an `AddressPair`.
pub struct AddressPairView {
    pub program_address: Seq<char>,
    pub user_address: Seq<char>,
}

/// The address of the program, derived from its fresh keypair, and the
/// address of the user. The user address is empty when it could not be looked
/// up.
pub struct AddressPair {
    pub program_address: String,
    pub user_address: String,
}

impl View for AddressPair {
    type V = AddressPairView;

    open spec fn view(&self) -> AddressPairView {
        AddressPairView {
            program_address: self.program_address@,
            user_address: self.user_address@,
        }
    }
}

} // verus!
