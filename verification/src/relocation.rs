//! Moving the store's backing file to another directory.
//!
//! A relocation is a sequence of steps on the file system and the settings.
//! The library decides which step comes next; the caller carries the step
//! out and reports how it went. The file is moved by renaming it; only when
//! that fails it is copied and the old file removed, and the old file is
//! removed only once the copy is there.

use vstd::prelude::*;
use crate::error::StoreError;
use crate::location::{same_backing_file, StoreLocation};

verus! {

/// A step of a relocation that the caller carries out.
#[derive(Debug, Clone, Copy, PartialEq, Eq, Structural)]
pub enum RelocationStep {
    /// Create the target directory, with its parents, unless it exists.
    CreateDirectory,
    /// See whether the backing file exists in the current directory.
    ProbeSource,
    /// Rename the backing file from the current into the target directory.
    Rename,
    /// Copy the backing file from the current into the target directory.
    Copy,
    /// Remove the backing file from the current directory.
    RemoveSource,
    /// Record the target directory as the location preference.
    SavePreference,
}

/// How the backing file got to the target directory.
#[derive(Debug, Clone, Copy, PartialEq, Eq, Structural)]
pub enum Movement {
    /// Target and current location are the same; nothing was touched.
    Unchanged,
    /// There was no backing file to move.
    NothingToMove,
    /// The file was renamed.
    Renamed,
    /// The file was copied.
    Copied,
}

/// How a relocation that succeeded went.
#[derive(Debug, Clone, Copy, PartialEq, Eq, Structural)]
pub struct Relocated {
    /// How the backing file got to the target directory.
    pub movement: Movement,
    /// Whether the file was copied and the old file could not be removed:
    /// a duplicate is left in the old directory.
    pub leftover: bool,
}

/// A relocation under way.
#[derive(Debug)]
pub struct Relocation {
    /// Where the store is.
    pub current: StoreLocation,
    /// Where it is to go.
    pub target: StoreLocation,
    /// Whether both are the same place.
    pub unchanged: bool,
    /// The step the caller is to carry out now.
    pub step: RelocationStep,
    /// How the file has been moved so far.
    pub movement: Movement,
    /// Whether a duplicate is left in the old directory.
    pub leftover: bool,
}

/// What comes after a step.
#[derive(Debug)]
pub enum Progress {
    /// The relocation goes on with the step named in it.
    Next(Relocation),
    /// The relocation is over.
    Finished(Result<Relocated, StoreError>),
}

/// What a relocation is, as plain mathematical values.
pub struct RelocationModel {
    pub current: Seq<char>,
    pub target: Seq<char>,
    pub unchanged: bool,
    pub step: RelocationStep,
    pub movement: Movement,
    pub leftover: bool,
}

/// What comes after a step, as plain mathematical values.
pub enum ProgressModel {
    Next(RelocationModel),
    Moved(Relocated),
    Failed { step: RelocationStep, reason: Seq<char> },
}

impl View for Relocation {
    type V = RelocationModel;

    open spec fn view(&self) -> RelocationModel {
        RelocationModel {
            current: self.current.directory@,
            target: self.target.directory@,
            unchanged: self.unchanged,
            step: self.step,
            movement: self.movement,
            leftover: self.leftover,
        }
    }
}

impl View for Progress {
    type V = Option<ProgressModel>;

    /// `None` stands for a failure that no relocation ends with.
    open spec fn view(&self) -> Option<ProgressModel> {
        match *self {
            Progress::Next(relocation) => Some(ProgressModel::Next(relocation@)),
            Progress::Finished(Ok(relocated)) => Some(ProgressModel::Moved(relocated)),
            Progress::Finished(Err(StoreError::RelocationIo { step, reason })) => Some(
                ProgressModel::Failed { step, reason: reason@ },
            ),
            Progress::Finished(Err(_)) => None,
        }
    }
}

impl RelocationModel {
    /// The relocation at another step.
    pub open spec fn at(self, step: RelocationStep) -> RelocationModel {
        RelocationModel { step, ..self }
    }

    /// The relocation at another step, the file having been moved.
    pub open spec fn moved(self, step: RelocationStep, movement: Movement) -> RelocationModel {
        RelocationModel { step, movement, ..self }
    }

    /// What follows the current step when the caller reports `answer` for
    /// it: `Ok` when the step was carried out (for the probe: when the file
    /// exists), `Err` with the reason when it was not (for the probe: when
    /// there is no file).
    pub open spec fn next(self, answer: Result<(), Seq<char>>) -> ProgressModel {
        match (self.step, answer) {
            (RelocationStep::CreateDirectory, Ok(_)) => if self.unchanged {
                ProgressModel::Moved(Relocated { movement: Movement::Unchanged, leftover: false })
            } else {
                ProgressModel::Next(self.at(RelocationStep::ProbeSource))
            },
            (RelocationStep::CreateDirectory, Err(reason)) => ProgressModel::Failed {
                step: RelocationStep::CreateDirectory,
                reason,
            },
            (RelocationStep::ProbeSource, Ok(_)) => ProgressModel::Next(
                self.at(RelocationStep::Rename),
            ),
            (RelocationStep::ProbeSource, Err(_)) => ProgressModel::Next(
                self.moved(RelocationStep::SavePreference, Movement::NothingToMove),
            ),
            (RelocationStep::Rename, Ok(_)) => ProgressModel::Next(
                self.moved(RelocationStep::SavePreference, Movement::Renamed),
            ),
            (RelocationStep::Rename, Err(_)) => ProgressModel::Next(self.at(RelocationStep::Copy)),
            (RelocationStep::Copy, Ok(_)) => ProgressModel::Next(
                self.moved(RelocationStep::RemoveSource, Movement::Copied),
            ),
            (RelocationStep::Copy, Err(reason)) => ProgressModel::Failed {
                step: RelocationStep::Copy,
                reason,
            },
            (RelocationStep::RemoveSource, Ok(_)) => ProgressModel::Next(
                self.at(RelocationStep::SavePreference),
            ),
            (RelocationStep::RemoveSource, Err(_)) => ProgressModel::Next(
                RelocationModel { step: RelocationStep::SavePreference, leftover: true, ..self },
            ),
            (RelocationStep::SavePreference, Ok(_)) => ProgressModel::Moved(
                Relocated { movement: self.movement, leftover: self.leftover },
            ),
            (RelocationStep::SavePreference, Err(reason)) => ProgressModel::Failed {
                step: RelocationStep::SavePreference,
                reason,
            },
        }
    }

    /// A relocation as it begins.
    pub open spec fn initial(current: Seq<char>, target: Seq<char>, unchanged: bool) -> RelocationModel {
        RelocationModel {
            current,
            target,
            unchanged,
            step: RelocationStep::CreateDirectory,
            movement: Movement::Unchanged,
            leftover: false,
        }
    }

    /// Whether the relocation can be reached from its beginning.
    pub open spec fn reachable(self) -> bool {
        match self.step {
            RelocationStep::CreateDirectory => self.movement == Movement::Unchanged
                && !self.leftover,
            RelocationStep::ProbeSource | RelocationStep::Rename | RelocationStep::Copy =>
                !self.unchanged && self.movement == Movement::Unchanged && !self.leftover,
            RelocationStep::RemoveSource => !self.unchanged && self.movement == Movement::Copied
                && !self.leftover,
            RelocationStep::SavePreference => !self.unchanged && self.movement
                != Movement::Unchanged && (self.leftover ==> self.movement == Movement::Copied),
        }
    }
}

/// The spec-level view of an answer.
pub open spec fn answer_model(answer: Result<(), String>) -> Result<(), Seq<char>> {
    match answer {
        Ok(_) => Ok(()),
        Err(reason) => Err(reason@),
    }
}

impl Relocation {
    /// Begins a relocation of the store from `current` to `target`. The
    /// first step is to create the target directory.
    pub fn begin(current: StoreLocation, target: StoreLocation) -> (relocation: Relocation)
        ensures
            relocation@ == RelocationModel::initial(
                current.directory@,
                target.directory@,
                relocation.unchanged,
            ),
            current.directory@ == target.directory@ ==> relocation.unchanged,
            relocation@.reachable(),
    {
        let unchanged = same_backing_file(&current, &target);
        Relocation {
            current,
            target,
            unchanged,
            step: RelocationStep::CreateDirectory,
            movement: Movement::Unchanged,
            leftover: false,
        }
    }

    /// Takes the caller's report on the current step and says what follows:
    /// the next step, or how the relocation ended.
    pub fn advance(self, answer: Result<(), String>) -> (progress: Progress)
        ensures
            progress@ == Some(self@.next(answer_model(answer))),
    {
        let Relocation { current, target, unchanged, step, movement, leftover } = self;
        match step {
            RelocationStep::CreateDirectory => match answer {
                Ok(_) => if unchanged {
                    Progress::Finished(
                        Ok(Relocated { movement: Movement::Unchanged, leftover: false }),
                    )
                } else {
                    Progress::Next(
                        Relocation {
                            current,
                            target,
                            unchanged,
                            step: RelocationStep::ProbeSource,
                            movement,
                            leftover,
                        },
                    )
                },
                Err(reason) => Progress::Finished(
                    Err(StoreError::RelocationIo { step: RelocationStep::CreateDirectory, reason }),
                ),
            },
            RelocationStep::ProbeSource => match answer {
                Ok(_) => Progress::Next(
                    Relocation {
                        current,
                        target,
                        unchanged,
                        step: RelocationStep::Rename,
                        movement,
                        leftover,
                    },
                ),
                Err(_) => Progress::Next(
                    Relocation {
                        current,
                        target,
                        unchanged,
                        step: RelocationStep::SavePreference,
                        movement: Movement::NothingToMove,
                        leftover,
                    },
                ),
            },
            RelocationStep::Rename => match answer {
                Ok(_) => Progress::Next(
                    Relocation {
                        current,
                        target,
                        unchanged,
                        step: RelocationStep::SavePreference,
                        movement: Movement::Renamed,
                        leftover,
                    },
                ),
                Err(_) => Progress::Next(
                    Relocation {
                        current,
                        target,
                        unchanged,
                        step: RelocationStep::Copy,
                        movement,
                        leftover,
                    },
                ),
            },
            RelocationStep::Copy => match answer {
                Ok(_) => Progress::Next(
                    Relocation {
                        current,
                        target,
                        unchanged,
                        step: RelocationStep::RemoveSource,
                        movement: Movement::Copied,
                        leftover,
                    },
                ),
                Err(reason) => Progress::Finished(
                    Err(StoreError::RelocationIo { step: RelocationStep::Copy, reason }),
                ),
            },
            RelocationStep::RemoveSource => match answer {
                Ok(_) => Progress::Next(
                    Relocation {
                        current,
                        target,
                        unchanged,
                        step: RelocationStep::SavePreference,
                        movement,
                        leftover,
                    },
                ),
                Err(_) => Progress::Next(
                    Relocation {
                        current,
                        target,
                        unchanged,
                        step: RelocationStep::SavePreference,
                        movement,
                        leftover: true,
                    },
                ),
            },
            RelocationStep::SavePreference => match answer {
                Ok(_) => Progress::Finished(Ok(Relocated { movement, leftover })),
                Err(reason) => Progress::Finished(
                    Err(StoreError::RelocationIo { step: RelocationStep::SavePreference, reason }),
                ),
            },
        }
    }
}

/// A relocation to the place where the store already is asks for the target
/// directory and for nothing else: once the directory is there it ends in
/// success, the backing file and the preference untouched.
pub proof fn lemma_same_place_moves_nothing(relocation: RelocationModel, answer: Result<(), Seq<char>>)
    requires
        relocation.reachable(),
        relocation.unchanged,
    ensures
        relocation.step == RelocationStep::CreateDirectory,
        relocation.next(answer) !is Next,
        answer is Ok ==> relocation.next(answer) == ProgressModel::Moved(
            Relocated { movement: Movement::Unchanged, leftover: false },
        ),
{
}

/// The old file is removed only after the copy succeeded: the step that
/// removes it follows nothing but a copy that was carried out.
pub proof fn lemma_remove_only_after_copy(relocation: RelocationModel, answer: Result<(), Seq<char>>)
    requires
        relocation.next(answer) matches ProgressModel::Next(following) && following.step
            == RelocationStep::RemoveSource,
    ensures
        relocation.step == RelocationStep::Copy,
        answer is Ok,
{
}

/// A failed rename is made up for by a copy: from a rename that failed the
/// relocation goes on to copy, then to remove the old file, then to record
/// the preference, and ends in success with the file copied. A removal that
/// fails leaves a duplicate behind and does not stop the relocation.
pub proof fn lemma_copy_makes_up_for_rename(
    relocation: RelocationModel,
    rename_reason: Seq<char>,
    removal: Result<(), Seq<char>>,
)
    requires
        relocation.reachable(),
        relocation.step == RelocationStep::Rename,
    ensures
        ({
            let copying = relocation.next(Err(rename_reason));
            let removing = copying->Next_0.next(Ok(()));
            let saving = removing->Next_0.next(removal);
            let end = saving->Next_0.next(Ok(()));
            &&& copying matches ProgressModel::Next(c) && c.step == RelocationStep::Copy
            &&& removing matches ProgressModel::Next(r) && r.step == RelocationStep::RemoveSource
            &&& saving matches ProgressModel::Next(s) && s.step == RelocationStep::SavePreference
            &&& end == ProgressModel::Moved(
                Relocated { movement: Movement::Copied, leftover: removal is Err },
            )
        }),
{
}

/// Every step keeps a relocation among those that can be reached from its
/// beginning, and a relocation that ends well has either touched nothing,
/// being between one place and itself, or has recorded the preference.
pub proof fn lemma_steps_stay_reachable(relocation: RelocationModel, answer: Result<(), Seq<char>>)
    requires
        relocation.reachable(),
    ensures
        relocation.next(answer) matches ProgressModel::Next(following) ==> following.reachable()
            && following.current == relocation.current && following.target == relocation.target
            && following.unchanged == relocation.unchanged,
        relocation.next(answer) matches ProgressModel::Moved(relocated) ==> (relocated.movement
            == Movement::Unchanged <==> relocation.unchanged) && (relocated.movement
            != Movement::Unchanged ==> relocation.step == RelocationStep::SavePreference) && (
        relocated.leftover ==> relocated.movement == Movement::Copied),
{
}

} // verus!
