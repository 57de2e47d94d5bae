//! Creating a project from the template, step by step.

use vstd::prelude::*;

verus! {

/// The directory that a new project is copied from.
pub const TEMPLATE_DIR: &'static str = "./jules_dev_standard/template";

/// What is to be done next to create a project.
#[derive(Clone, Copy, PartialEq, Eq, Structural, Debug)]
pub enum CreateStep {
    /// Make the project's directory, with those above it.
    MakeDirectory,
    /// Copy what is in the template into the directory.
    CopyTemplate,
    /// Make the directory a repository.
    InitRepository,
    /// Nothing is left to be done.
    Done,
}

impl CreateStep {
    /// The step after this one, which went well or not: without a directory nothing is
    /// left to be done; a copy or an initialisation that fails is let pass.
    pub open spec fn following(self, went_well: bool) -> CreateStep {
        match self {
            CreateStep::MakeDirectory => if went_well {
                CreateStep::CopyTemplate
            } else {
                CreateStep::Done
            },
            CreateStep::CopyTemplate => CreateStep::InitRepository,
            CreateStep::InitRepository => CreateStep::Done,
            CreateStep::Done => CreateStep::Done,
        }
    }

    /// The step with which creation begins, given whether something bears the project's name
    /// already and whether there is a template.
    pub open spec fn beginning(project_exists: bool, template_exists: bool) -> CreateStep {
        if !project_exists && template_exists {
            CreateStep::MakeDirectory
        } else {
            CreateStep::Done
        }
    }

    /// The steps that are taken from this one on, where each goes well or not in turn.
    pub open spec fn taken(self, outcomes: Seq<bool>) -> Seq<CreateStep>
        decreases outcomes.len(),
    {
        if self == CreateStep::Done || outcomes.len() == 0 {
            Seq::empty()
        } else {
            seq![self] + self.following(outcomes[0]).taken(outcomes.skip(1))
        }
    }

    /// How many steps are left at most.
    pub open spec fn left(self) -> nat {
        match self {
            CreateStep::MakeDirectory => 3,
            CreateStep::CopyTemplate => 2,
            CreateStep::InitRepository => 1,
            CreateStep::Done => 0,
        }
    }

    /// The first step: a project is created only where nothing bears its name yet and
    /// there is a template.
    pub fn first(project_exists: bool, template_exists: bool) -> (r: CreateStep)
        ensures
            r == (if !project_exists && template_exists {
                CreateStep::MakeDirectory
            } else {
                CreateStep::Done
            }),
            r == CreateStep::beginning(project_exists, template_exists),
    {
        if !project_exists && template_exists {
            CreateStep::MakeDirectory
        } else {
            CreateStep::Done
        }
    }

    /// The step after this one.
    pub fn next(self, went_well: bool) -> (r: CreateStep)
        ensures
            r == self.following(went_well),
    {
        match self {
            CreateStep::MakeDirectory => if went_well {
                CreateStep::CopyTemplate
            } else {
                CreateStep::Done
            },
            CreateStep::CopyTemplate => CreateStep::InitRepository,
            CreateStep::InitRepository => CreateStep::Done,
            CreateStep::Done => CreateStep::Done,
        }
    }
}

/// Once its directory is made, a project gets the template and becomes a repository,
/// whatever else goes well or not; without a directory nothing more is tried.
pub proof fn made_projects_become_repositories(outcomes: Seq<bool>)
    requires
        outcomes.len() >= 3,
    ensures
        CreateStep::MakeDirectory.taken(outcomes) == (if outcomes[0] {
            seq![
                CreateStep::MakeDirectory,
                CreateStep::CopyTemplate,
                CreateStep::InitRepository,
            ]
        } else {
            seq![CreateStep::MakeDirectory]
        }),
{
    reveal_with_fuel(CreateStep::taken, 4);
    assert(CreateStep::MakeDirectory.taken(outcomes) =~= (if outcomes[0] {
        seq![CreateStep::MakeDirectory, CreateStep::CopyTemplate, CreateStep::InitRepository]
    } else {
        seq![CreateStep::MakeDirectory]
    }));
}

/// New projects are copied from the template of the development standard that stands below the
/// working directory.
pub proof fn template_stands_below()
    ensures
        TEMPLATE_DIR@ == "./jules_dev_standard/template"@,
{
}

/// Nothing is done to a project that is there already, nor without a template; else creation
/// begins with the directory.
pub proof fn only_new_projects_are_created(project_exists: bool, template_exists: bool)
    ensures
        CreateStep::beginning(project_exists, template_exists) is Done || CreateStep::beginning(
            project_exists,
            template_exists,
        ) is MakeDirectory,
        CreateStep::beginning(project_exists, template_exists) is MakeDirectory <==> template_exists
            && !project_exists,
{
}

/// Creation ends: every step but the last brings it closer to its end.
pub proof fn creation_ends(step: CreateStep, went_well: bool)
    ensures
        step != CreateStep::Done ==> step.following(went_well).left() < step.left(),
        step == CreateStep::Done ==> step.following(went_well) == CreateStep::Done,
{
}

} // verus!
