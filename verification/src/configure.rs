//! Setting up every repository for signing, write by write.

use crate::gpg;
use crate::gpg::{next_setting, Setting, SettingView};
use vstd::prelude::*;

verus! {

/// What is to be done next to set up every repository.
#[derive(Clone, Copy, PartialEq, Eq, Structural, Debug)]
pub enum ConfigureStep {
    /// Go on to the next repository, if there is one.
    NextRepo,
    /// Open the configuration of the repository.
    OpenConfig,
    /// Write the setting at this index to the configuration.
    Write(usize),
    /// Nothing is left to be done.
    Done,
}

/// How a repository takes what is done to it.
pub struct RepoAnswers {
    /// Whether its configuration can be opened.
    pub opens: bool,
    /// Of each setting, whether it can be written.
    pub takes: Seq<bool>,
}

impl ConfigureStep {
    /// The step after this one, which went well or not, with `count` settings to write. A
    /// failure ends what is done to the repository at hand, and the next one has its turn;
    /// nothing is left to be done only where there is no further repository.
    pub open spec fn following(self, went_well: bool, count: nat) -> ConfigureStep {
        match self {
            ConfigureStep::NextRepo => if went_well {
                ConfigureStep::OpenConfig
            } else {
                ConfigureStep::Done
            },
            ConfigureStep::OpenConfig => if went_well && count > 0 {
                ConfigureStep::Write(0)
            } else {
                ConfigureStep::NextRepo
            },
            ConfigureStep::Write(i) => if went_well && i + 1 < count {
                ConfigureStep::Write((i + 1) as usize)
            } else {
                ConfigureStep::NextRepo
            },
            ConfigureStep::Done => ConfigureStep::Done,
        }
    }

    /// How many steps are left at most for the repository at hand.
    pub open spec fn left(self, count: nat) -> nat {
        match self {
            ConfigureStep::NextRepo => 0,
            ConfigureStep::OpenConfig => count + 2,
            ConfigureStep::Write(i) => if i < count {
                (1 + count - i) as nat
            } else {
                1
            },
            ConfigureStep::Done => 0,
        }
    }

    /// Whether this step went well with a repository that answers so.
    pub open spec fn goes_well(self, answers: RepoAnswers) -> bool {
        match self {
            ConfigureStep::OpenConfig => answers.opens,
            ConfigureStep::Write(i) => answers.takes[i as int],
            _ => true,
        }
    }

    /// The settings whose writing is tried on the repository at hand from this step on.
    pub open spec fn tried(self, settings: Seq<SettingView>, answers: RepoAnswers) -> Seq<
        SettingView,
    >
        decreases self.left(settings.len()),
        when settings.len() <= usize::MAX
    {
        let next = self.following(self.goes_well(answers), settings.len());
        match self {
            ConfigureStep::OpenConfig => next.tried(settings, answers),
            ConfigureStep::Write(i) => seq![settings[i as int]] + next.tried(settings, answers),
            _ => Seq::empty(),
        }
    }

    /// The step with which the repository at hand is left.
    pub open spec fn leaving(self, count: nat, answers: RepoAnswers) -> ConfigureStep
        decreases self.left(count),
        when count <= usize::MAX
    {
        match self {
            ConfigureStep::NextRepo => self,
            ConfigureStep::Done => self,
            _ => self.following(self.goes_well(answers), count).leaving(count, answers),
        }
    }

    /// The settings whose writing is tried on each of the repositories that are still to
    /// come, one after the other.
    pub open spec fn tried_everywhere(
        self,
        settings: Seq<SettingView>,
        repos: Seq<RepoAnswers>,
    ) -> Seq<Seq<SettingView>>
        decreases repos.len(),
    {
        if self != ConfigureStep::NextRepo || repos.len() == 0 {
            Seq::empty()
        } else {
            let begun = self.following(true, settings.len());
            let left = begun.leaving(settings.len(), repos[0]);
            seq![begun.tried(settings, repos[0])] + left.tried_everywhere(settings, repos.skip(1))
        }
    }

    /// The step after this one.
    pub fn next(self, went_well: bool, settings: &Vec<Setting>) -> (r: ConfigureStep)
        ensures
            r == self.following(went_well, settings@.len()),
    {
        match self {
            ConfigureStep::NextRepo => if went_well {
                ConfigureStep::OpenConfig
            } else {
                ConfigureStep::Done
            },
            ConfigureStep::OpenConfig => match next_setting(settings, 0, went_well) {
                Some(i) => ConfigureStep::Write(i),
                None => ConfigureStep::NextRepo,
            },
            ConfigureStep::Write(i) => if i < settings.len() {
                match next_setting(settings, i + 1, went_well) {
                    Some(i) => ConfigureStep::Write(i),
                    None => ConfigureStep::NextRepo,
                }
            } else {
                ConfigureStep::NextRepo
            },
            ConfigureStep::Done => ConfigureStep::Done,
        }
    }
}

/// Whether `tried` is what is tried of the settings on a repository that answers so: none
/// where its configuration does not open, else all of them in order, up to the first that
/// cannot be written and with that one.
pub open spec fn ends_at_first_failure(
    tried: Seq<SettingView>,
    settings: Seq<SettingView>,
    answers: RepoAnswers,
) -> bool {
    &&& tried.len() <= settings.len()
    &&& tried == settings.take(tried.len() as int)
    &&& !answers.opens ==> tried.len() == 0
    &&& answers.opens && settings.len() > 0 ==> tried.len() > 0
    &&& forall|j: int| 0 <= j < tried.len() - 1 ==> #[trigger] answers.takes[j]
    &&& answers.opens && tried.len() < settings.len() ==> !answers.takes[tried.len() - 1]
}

/// The first write that fails ends the writes to that repository and to no other: every
/// repository has its turn, and what is tried on it depends on nothing but its own answers.
pub proof fn failures_end_one_repository(key: Seq<char>, repos: Seq<RepoAnswers>, r: int)
    requires
        0 <= r < repos.len(),
    ensures
        ({
            let settings = gpg::signing_settings(key);
            let tried = ConfigureStep::NextRepo.tried_everywhere(settings, repos);
            &&& tried.len() == repos.len()
            &&& ends_at_first_failure(tried[r], settings, repos[r])
            &&& tried[r] == ConfigureStep::OpenConfig.tried(settings, repos[r])
        }),
{
    every_repository_has_its_turn(gpg::signing_settings(key), repos, r);
}

/// A repository that opens and takes every setting is set up in full, whatever becomes of
/// the others.
pub proof fn willing_repositories_are_set_up(key: Seq<char>, repos: Seq<RepoAnswers>, r: int)
    requires
        0 <= r < repos.len(),
        repos[r].opens,
        forall|j: int| 0 <= j < gpg::signing_settings(key).len() ==> #[trigger] repos[r].takes[j],
    ensures
        ConfigureStep::NextRepo.tried_everywhere(gpg::signing_settings(key), repos)[r]
            == gpg::signing_settings(key),
{
    let settings = gpg::signing_settings(key);
    failures_end_one_repository(key, repos, r);
    let tried = ConfigureStep::NextRepo.tried_everywhere(settings, repos)[r];
    assert(tried.len() == settings.len());
    assert(settings.take(settings.len() as int) =~= settings);
}

/// All is done exactly where there is no further repository.
pub proof fn only_the_end_of_repositories_ends(step: ConfigureStep, went_well: bool, count: nat)
    ensures
        step.following(went_well, count) is Done <==> step is Done || (step is NextRepo
            && !went_well),
        step is NextRepo && went_well ==> step.following(went_well, count) is OpenConfig,
        step is OpenConfig && went_well && count > 0 ==> step.following(went_well, count)
            == ConfigureStep::Write(0),
{
}

/// The set-up of a repository ends: every step brings it closer to its end, and it is left
/// for the next one.
pub proof fn set_up_ends(step: ConfigureStep, went_well: bool, count: nat)
    requires
        step is OpenConfig || step is Write,
        count <= usize::MAX,
    ensures
        step.following(went_well, count).left(count) < step.left(count),
        !went_well ==> step.following(went_well, count) == ConfigureStep::NextRepo,
        !(step.following(went_well, count) is Done),
{
}

/// Whatever the settings, every repository has its turn, and what is tried on it ends at its
/// own first failure.
pub proof fn every_repository_has_its_turn(
    settings: Seq<SettingView>,
    repos: Seq<RepoAnswers>,
    r: int,
)
    requires
        0 <= r < repos.len(),
        settings.len() <= usize::MAX,
    ensures
        ({
            let tried = ConfigureStep::NextRepo.tried_everywhere(settings, repos);
            &&& tried.len() == repos.len()
            &&& ends_at_first_failure(tried[r], settings, repos[r])
            &&& tried[r] == ConfigureStep::OpenConfig.tried(settings, repos[r])
        }),
    decreases repos.len(),
{
    let begun = ConfigureStep::OpenConfig;
    let first = begun.tried(settings, repos[0]);
    set_up_leads_on(begun, settings.len(), repos[0]);
    let rest = ConfigureStep::NextRepo.tried_everywhere(settings, repos.skip(1));
    assert(ConfigureStep::NextRepo.tried_everywhere(settings, repos) == seq![first] + rest);
    if repos.len() > 1 {
        every_repository_has_its_turn(
            settings,
            repos.skip(1),
            if r > 0 {
                r - 1
            } else {
                0
            },
        );
    }
    if r == 0 {
        let answers = repos[0];
        if answers.opens && settings.len() > 0 {
            writes_end_at_first_failure(settings, answers, 0);
            assert(settings.subrange(0, first.len() as int) =~= settings.take(first.len() as int));
        } else {
            assert(first == ConfigureStep::NextRepo.tried(settings, answers));
            assert(settings.take(0) =~= Seq::empty());
        }
    }
}

proof fn set_up_leads_on(step: ConfigureStep, count: nat, answers: RepoAnswers)
    requires
        !(step is Done),
        count <= usize::MAX,
    ensures
        step.leaving(count, answers) == ConfigureStep::NextRepo,
    decreases step.left(count),
{
    if step != ConfigureStep::NextRepo {
        set_up_leads_on(step.following(step.goes_well(answers), count), count, answers);
    }
}

proof fn writes_end_at_first_failure(
    settings: Seq<SettingView>,
    answers: RepoAnswers,
    i: usize,
)
    requires
        i < settings.len() <= usize::MAX,
    ensures
        ({
            let tried = ConfigureStep::Write(i).tried(settings, answers);
            &&& 0 < tried.len() <= settings.len() - i
            &&& tried == settings.subrange(i as int, i + tried.len())
            &&& forall|j: int| i <= j < i + tried.len() - 1 ==> #[trigger] answers.takes[j]
            &&& i + tried.len() < settings.len() ==> !answers.takes[i + tried.len() - 1]
        }),
    decreases settings.len() - i,
{
    let tried = ConfigureStep::Write(i).tried(settings, answers);
    if answers.takes[i as int] && i + 1 < settings.len() {
        writes_end_at_first_failure(settings, answers, (i + 1) as usize);
        let rest = ConfigureStep::Write((i + 1) as usize).tried(settings, answers);
        assert(tried == seq![settings[i as int]] + rest);
        assert(tried =~= settings.subrange(i as int, i + tried.len()));
    } else {
        assert(tried == seq![settings[i as int]] + ConfigureStep::NextRepo.tried(
            settings,
            answers,
        ));
        assert(tried =~= settings.subrange(i as int, i + 1));
    }
}

} // verus!
