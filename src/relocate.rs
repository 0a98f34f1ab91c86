//! Cloning and moving an instance through temporary archives, as step-by-step protocols.
//!
//! Each protocol hands out one gateway operation at a time and takes its outcome back, so the
//! caller performs the operations and the protocol alone decides what comes next. Moving first
//! imports a copy under a temporary name and unregisters the original only once that copy
//! exists, so no failure loses the instance before the original is gone.
use vstd::prelude::*;
use crate::profile::random_id;

verus! {

/// The file name of a temporary archive for instance `name`: the name, the purpose (`clone`,
/// `move` or `rename`) and a random id, so that concurrent operations never share one.
pub fn temp_artifact_name(name: &str, purpose: &str) -> (r: String)
    ensures
        exists|id: Seq<char>| id.len() == 36 && r@ == name@ + "_"@ + purpose@ + "_"@ + id + ".tar"@,
{
    let id = random_id();
    let mut r = String::from_str(name);
    r.append("_");
    r.append(purpose);
    r.append("_");
    r.append(id.as_str());
    r.append(".tar");
    assert(r@ =~= name@ + "_"@ + purpose@ + "_"@ + id@ + ".tar"@);
    r
}

/// An operation for the gateway to perform.
#[derive(Debug, Clone, PartialEq)]
pub enum GatewayOp {
    /// Write the instance `name` to the archive `artifact`.
    Export { name: String, artifact: String },
    /// Register the archive `artifact` as instance `name`, stored at `location`.
    Import { name: String, location: String, artifact: String },
    /// Remove the instance `name` and its storage.
    Unregister { name: String },
    /// Delete the temporary archive `artifact`; its outcome is ignored.
    RemoveArtifact { artifact: String },
}

/// A gateway operation, as plain values.
pub enum OpView {
    Export { name: Seq<char>, artifact: Seq<char> },
    Import { name: Seq<char>, location: Seq<char>, artifact: Seq<char> },
    Unregister { name: Seq<char> },
    RemoveArtifact { artifact: Seq<char> },
}

impl View for GatewayOp {
    type V = OpView;

    open spec fn view(&self) -> OpView {
        match self {
            GatewayOp::Export { name, artifact } => OpView::Export { name: name@, artifact: artifact@ },
            GatewayOp::Import { name, location, artifact } => OpView::Import {
                name: name@,
                location: location@,
                artifact: artifact@,
            },
            GatewayOp::Unregister { name } => OpView::Unregister { name: name@ },
            GatewayOp::RemoveArtifact { artifact } => OpView::RemoveArtifact { artifact: artifact@ },
        }
    }
}

/// Why a clone or a move failed.
#[derive(Debug, Clone, PartialEq)]
pub enum RelocateError {
    /// The operation failed with the instance in its place; the gateway's message, with context.
    Failed(String),
    /// The original name is gone and the instance survives under `surviving`, the temporary name,
    /// which is still registered; renaming it back is left to the caller.
    PartialFailure { surviving: String, message: String },
    /// No name is registered any more: the instance survives only in `archive`, which is kept so
    /// that the caller can import it.
    Stranded { archive: String, message: String },
}

/// A failure, as plain values.
pub enum ErrorView {
    Failed(Seq<char>),
    PartialFailure { surviving: Seq<char>, message: Seq<char> },
    Stranded { archive: Seq<char>, message: Seq<char> },
}

impl View for RelocateError {
    type V = ErrorView;

    open spec fn view(&self) -> ErrorView {
        match self {
            RelocateError::Failed(m) => ErrorView::Failed(m@),
            RelocateError::PartialFailure { surviving, message } => ErrorView::PartialFailure {
                surviving: surviving@,
                message: message@,
            },
            RelocateError::Stranded { archive, message } => ErrorView::Stranded {
                archive: archive@,
                message: message@,
            },
        }
    }
}

impl RelocateError {
    /// The human-readable message of this failure.
    pub fn message(&self) -> (r: String)
        ensures
            r@ == match self@ {
                ErrorView::Failed(m) => m,
                ErrorView::PartialFailure { message, .. } => message,
                ErrorView::Stranded { message, .. } => message,
            },
    {
        match self {
            RelocateError::Failed(m) => m.clone(),
            RelocateError::PartialFailure { message, .. } => message.clone(),
            RelocateError::Stranded { message, .. } => message.clone(),
        }
    }

    fn copy(&self) -> (r: RelocateError)
        ensures
            r@ == self@,
    {
        match self {
            RelocateError::Failed(m) => RelocateError::Failed(m.clone()),
            RelocateError::PartialFailure { surviving, message } => RelocateError::PartialFailure {
                surviving: surviving.clone(),
                message: message.clone(),
            },
            RelocateError::Stranded { archive, message } => RelocateError::Stranded {
                archive: archive.clone(),
                message: message.clone(),
            },
        }
    }
}

/// What a protocol asks for next.
#[derive(Debug)]
pub enum Step {
    /// Perform this operation and hand its outcome to `next`.
    Run(GatewayOp),
    /// The protocol is over, with this result.
    Done(Result<(), RelocateError>),
}

/// What a protocol asks for next, as plain values; `Done(None)` is success.
pub enum StepView {
    Run(OpView),
    Done(Option<ErrorView>),
}

impl View for Step {
    type V = StepView;

    open spec fn view(&self) -> StepView {
        match self {
            Step::Run(op) => StepView::Run(op@),
            Step::Done(Ok(())) => StepView::Done(None),
            Step::Done(Err(e)) => StepView::Done(Some(e@)),
        }
    }
}

/// The view of an operation's outcome: `None` for success, else the gateway's message.
pub open spec fn outcome_view(o: Result<(), String>) -> Option<Seq<char>> {
    match o {
        Ok(()) => None,
        Err(e) => Some(e@),
    }
}

/// The view of an optional failure.
pub open spec fn pending_view(p: Option<RelocateError>) -> Option<ErrorView> {
    match p {
        Some(e) => Some(e@),
        None => None,
    }
}

fn finish(p: &Option<RelocateError>) -> (r: Step)
    ensures
        r@ == StepView::Done(pending_view(*p)),
{
    match p {
        Some(e) => Step::Done(Err(e.copy())),
        None => Step::Done(Ok(())),
    }
}

// ----------------------------------------------------------------------------------------------
// Clone
// ----------------------------------------------------------------------------------------------

/// Where a clone stands: which operation's outcome it waits for.
#[derive(Debug, Clone, Copy, PartialEq, Eq, Structural)]
pub enum ClonePhase {
    NotStarted,
    Exporting,
    Importing,
    Cleaning,
    Finished,
}

/// Copies instance `source` to a new instance `new_name` at `location` through the archive
/// `artifact`, which is deleted afterwards whatever happened.
pub struct CloneDistribution {
    source: String,
    new_name: String,
    location: String,
    artifact: String,
    phase: ClonePhase,
    pending: Option<RelocateError>,
}

/// What a clone holds, as plain values.
pub struct CloneView {
    pub source: Seq<char>,
    pub new_name: Seq<char>,
    pub location: Seq<char>,
    pub artifact: Seq<char>,
    pub phase: ClonePhase,
    pub pending: Option<ErrorView>,
}

impl View for CloneDistribution {
    type V = CloneView;

    closed spec fn view(&self) -> CloneView {
        CloneView {
            source: self.source@,
            new_name: self.new_name@,
            location: self.location@,
            artifact: self.artifact@,
            phase: self.phase,
            pending: pending_view(self.pending),
        }
    }
}

/// The clone's state and request after the outcome `o` of the operation it waited for: export,
/// then import, then delete the archive; a failed export or import is kept as the result and
/// skips straight to deleting the archive.
pub open spec fn clone_next(c: CloneView, o: Option<Seq<char>>) -> (CloneView, StepView) {
    match c.phase {
        ClonePhase::NotStarted => (
            CloneView { phase: ClonePhase::Exporting, ..c },
            StepView::Run(OpView::Export { name: c.source, artifact: c.artifact }),
        ),
        ClonePhase::Exporting => match o {
            None => (
                CloneView { phase: ClonePhase::Importing, ..c },
                StepView::Run(OpView::Import { name: c.new_name, location: c.location, artifact: c.artifact }),
            ),
            Some(e) => (
                CloneView { phase: ClonePhase::Cleaning, pending: Some(ErrorView::Failed(e)), ..c },
                StepView::Run(OpView::RemoveArtifact { artifact: c.artifact }),
            ),
        },
        ClonePhase::Importing => (
            CloneView {
                phase: ClonePhase::Cleaning,
                pending: match o { None => None, Some(e) => Some(ErrorView::Failed(e)) },
                ..c
            },
            StepView::Run(OpView::RemoveArtifact { artifact: c.artifact }),
        ),
        _ => (CloneView { phase: ClonePhase::Finished, ..c }, StepView::Done(c.pending)),
    }
}

impl CloneDistribution {
    /// A clone that has not started yet.
    pub fn new(source: &str, new_name: &str, location: &str, artifact: &str) -> (r: CloneDistribution)
        ensures
            r@ == (CloneView {
                source: source@,
                new_name: new_name@,
                location: location@,
                artifact: artifact@,
                phase: ClonePhase::NotStarted,
                pending: None,
            }),
    {
        CloneDistribution {
            source: String::from_str(source),
            new_name: String::from_str(new_name),
            location: String::from_str(location),
            artifact: String::from_str(artifact),
            phase: ClonePhase::NotStarted,
            pending: None,
        }
    }

    /// Takes the outcome of the operation last handed out (ignored for the first call) and
    /// says what to do next.
    pub fn next(&mut self, outcome: Result<(), String>) -> (r: Step)
        ensures
            (final(self)@, r@) == clone_next(old(self)@, outcome_view(outcome)),
    {
        match self.phase {
            ClonePhase::NotStarted => {
                self.phase = ClonePhase::Exporting;
                Step::Run(GatewayOp::Export { name: self.source.clone(), artifact: self.artifact.clone() })
            },
            ClonePhase::Exporting => match outcome {
                Ok(()) => {
                    self.phase = ClonePhase::Importing;
                    Step::Run(GatewayOp::Import {
                        name: self.new_name.clone(),
                        location: self.location.clone(),
                        artifact: self.artifact.clone(),
                    })
                },
                Err(e) => {
                    self.phase = ClonePhase::Cleaning;
                    self.pending = Some(RelocateError::Failed(e));
                    Step::Run(GatewayOp::RemoveArtifact { artifact: self.artifact.clone() })
                },
            },
            ClonePhase::Importing => {
                self.phase = ClonePhase::Cleaning;
                self.pending = match outcome {
                    Ok(()) => None,
                    Err(e) => Some(RelocateError::Failed(e)),
                };
                Step::Run(GatewayOp::RemoveArtifact { artifact: self.artifact.clone() })
            },
            _ => {
                self.phase = ClonePhase::Finished;
                finish(&self.pending)
            },
        }
    }
}

// ----------------------------------------------------------------------------------------------
// Move
// ----------------------------------------------------------------------------------------------

/// Where a move stands: which operation's outcome it waits for.
#[derive(Debug, Clone, Copy, PartialEq, Eq, Structural)]
pub enum MovePhase {
    NotStarted,
    ExportingOriginal,
    ImportingCopy,
    CleaningFirst,
    UnregisteringOriginal,
    ExportingCopy,
    UnregisteringCopy,
    ImportingFinal,
    CleaningSecond,
    Finished,
}

/// The name a moving instance carries while both copies exist.
pub open spec fn moving_name(name: Seq<char>) -> Seq<char> {
    name + "-wsl-tamer-moving"@
}

/// The message for an import at the new location that failed with the original untouched.
pub open spec fn preserved_message(e: Seq<char>) -> Seq<char> {
    "Failed to import at new location (original preserved): "@ + e
}

/// The message for a failed rename back to the original name.
pub open spec fn rename_message(temp: Seq<char>, e: Seq<char>) -> Seq<char> {
    "Move succeeded but rename failed (distro available as '"@ + temp + "'): "@ + e
}

/// The message for a final import that failed once no name was registered any more.
pub open spec fn stranded_message(archive: Seq<char>, e: Seq<char>) -> Seq<char> {
    "Move failed after the instance was unregistered; it is kept in the archive '"@ + archive + "': "@ + e
}

/// Moves instance `name` to `new_location`, through the archives `first` and `second`.
pub struct MoveDistribution {
    name: String,
    temp_name: String,
    location: String,
    first: String,
    second: String,
    phase: MovePhase,
    pending: Option<RelocateError>,
}

/// What a move holds, as plain values.
pub struct MoveView {
    pub name: Seq<char>,
    pub temp_name: Seq<char>,
    pub location: Seq<char>,
    pub first: Seq<char>,
    pub second: Seq<char>,
    pub phase: MovePhase,
    pub pending: Option<ErrorView>,
}

impl View for MoveDistribution {
    type V = MoveView;

    closed spec fn view(&self) -> MoveView {
        MoveView {
            name: self.name@,
            temp_name: self.temp_name@,
            location: self.location@,
            first: self.first@,
            second: self.second@,
            phase: self.phase,
            pending: pending_view(self.pending),
        }
    }
}

/// The move's state and request after the outcome `o` of the operation it waited for.
///
/// 1. Export the original to the first archive.
/// 2. Import that archive under the temporary name at the new location; the first archive is
///    then deleted. A failed export or import ends the move with the original untouched.
/// 3. Unregister the original.
/// 4. Export the temporary instance to the second archive, unregister the temporary name and
///    import the second archive under the original name at the new location; the second archive
///    is then deleted. A failed export or unregistration here ends the move with a partial
///    failure naming the temporary name, which is still registered. A failed final import ends
///    it with the instance stranded in the second archive, which is then kept, not deleted.
pub open spec fn move_next(m: MoveView, o: Option<Seq<char>>) -> (MoveView, StepView) {
    let partial = |e: Seq<char>| ErrorView::PartialFailure { surviving: m.temp_name, message: rename_message(m.temp_name, e) };
    match m.phase {
        MovePhase::NotStarted => (
            MoveView { phase: MovePhase::ExportingOriginal, ..m },
            StepView::Run(OpView::Export { name: m.name, artifact: m.first }),
        ),
        MovePhase::ExportingOriginal => match o {
            None => (
                MoveView { phase: MovePhase::ImportingCopy, ..m },
                StepView::Run(OpView::Import { name: m.temp_name, location: m.location, artifact: m.first }),
            ),
            Some(e) => (
                MoveView { phase: MovePhase::CleaningFirst, pending: Some(ErrorView::Failed(e)), ..m },
                StepView::Run(OpView::RemoveArtifact { artifact: m.first }),
            ),
        },
        MovePhase::ImportingCopy => (
            MoveView {
                phase: MovePhase::CleaningFirst,
                pending: match o { None => None, Some(e) => Some(ErrorView::Failed(preserved_message(e))) },
                ..m
            },
            StepView::Run(OpView::RemoveArtifact { artifact: m.first }),
        ),
        MovePhase::CleaningFirst => match m.pending {
            Some(_) => (MoveView { phase: MovePhase::Finished, ..m }, StepView::Done(m.pending)),
            None => (
                MoveView { phase: MovePhase::UnregisteringOriginal, ..m },
                StepView::Run(OpView::Unregister { name: m.name }),
            ),
        },
        MovePhase::UnregisteringOriginal => match o {
            None => (
                MoveView { phase: MovePhase::ExportingCopy, ..m },
                StepView::Run(OpView::Export { name: m.temp_name, artifact: m.second }),
            ),
            Some(e) => (
                MoveView { phase: MovePhase::Finished, pending: Some(ErrorView::Failed(e)), ..m },
                StepView::Done(Some(ErrorView::Failed(e))),
            ),
        },
        MovePhase::ExportingCopy => match o {
            None => (
                MoveView { phase: MovePhase::UnregisteringCopy, ..m },
                StepView::Run(OpView::Unregister { name: m.temp_name }),
            ),
            Some(e) => (
                MoveView { phase: MovePhase::CleaningSecond, pending: Some(partial(e)), ..m },
                StepView::Run(OpView::RemoveArtifact { artifact: m.second }),
            ),
        },
        MovePhase::UnregisteringCopy => match o {
            None => (
                MoveView { phase: MovePhase::ImportingFinal, ..m },
                StepView::Run(OpView::Import { name: m.name, location: m.location, artifact: m.second }),
            ),
            Some(e) => (
                MoveView { phase: MovePhase::CleaningSecond, pending: Some(partial(e)), ..m },
                StepView::Run(OpView::RemoveArtifact { artifact: m.second }),
            ),
        },
        MovePhase::ImportingFinal => match o {
            None => (
                MoveView { phase: MovePhase::CleaningSecond, ..m },
                StepView::Run(OpView::RemoveArtifact { artifact: m.second }),
            ),
            Some(e) => {
                let stranded = ErrorView::Stranded { archive: m.second, message: stranded_message(m.second, e) };
                (MoveView { phase: MovePhase::Finished, pending: Some(stranded), ..m }, StepView::Done(Some(stranded)))
            },
        },
        _ => (MoveView { phase: MovePhase::Finished, ..m }, StepView::Done(m.pending)),
    }
}

fn rename_failure(temp: &String, e: &String) -> (r: RelocateError)
    ensures
        r@ == (ErrorView::PartialFailure { surviving: temp@, message: rename_message(temp@, e@) }),
{
    let mut message = String::from_str("Move succeeded but rename failed (distro available as '");
    message.append(temp.as_str());
    message.append("'): ");
    message.append(e.as_str());
    assert(message@ =~= rename_message(temp@, e@));
    RelocateError::PartialFailure { surviving: temp.clone(), message }
}

impl MoveDistribution {
    /// A move that has not started yet.
    pub fn new(name: &str, new_location: &str, first: &str, second: &str) -> (r: MoveDistribution)
        ensures
            r@ == (MoveView {
                name: name@,
                temp_name: moving_name(name@),
                location: new_location@,
                first: first@,
                second: second@,
                phase: MovePhase::NotStarted,
                pending: None,
            }),
    {
        let mut temp_name = String::from_str(name);
        temp_name.append("-wsl-tamer-moving");
        MoveDistribution {
            name: String::from_str(name),
            temp_name,
            location: String::from_str(new_location),
            first: String::from_str(first),
            second: String::from_str(second),
            phase: MovePhase::NotStarted,
            pending: None,
        }
    }

    /// Takes the outcome of the operation last handed out (ignored for the first call) and
    /// says what to do next.
    pub fn next(&mut self, outcome: Result<(), String>) -> (r: Step)
        ensures
            (final(self)@, r@) == move_next(old(self)@, outcome_view(outcome)),
    {
        match self.phase {
            MovePhase::NotStarted => {
                self.phase = MovePhase::ExportingOriginal;
                Step::Run(GatewayOp::Export { name: self.name.clone(), artifact: self.first.clone() })
            },
            MovePhase::ExportingOriginal => match outcome {
                Ok(()) => {
                    self.phase = MovePhase::ImportingCopy;
                    Step::Run(GatewayOp::Import {
                        name: self.temp_name.clone(),
                        location: self.location.clone(),
                        artifact: self.first.clone(),
                    })
                },
                Err(e) => {
                    self.phase = MovePhase::CleaningFirst;
                    self.pending = Some(RelocateError::Failed(e));
                    Step::Run(GatewayOp::RemoveArtifact { artifact: self.first.clone() })
                },
            },
            MovePhase::ImportingCopy => {
                self.phase = MovePhase::CleaningFirst;
                self.pending = match outcome {
                    Ok(()) => None,
                    Err(e) => {
                        let mut message = String::from_str("Failed to import at new location (original preserved): ");
                        message.append(e.as_str());
                        Some(RelocateError::Failed(message))
                    },
                };
                Step::Run(GatewayOp::RemoveArtifact { artifact: self.first.clone() })
            },
            MovePhase::CleaningFirst => {
                if self.pending.is_some() {
                    self.phase = MovePhase::Finished;
                    finish(&self.pending)
                } else {
                    self.phase = MovePhase::UnregisteringOriginal;
                    Step::Run(GatewayOp::Unregister { name: self.name.clone() })
                }
            },
            MovePhase::UnregisteringOriginal => match outcome {
                Ok(()) => {
                    self.phase = MovePhase::ExportingCopy;
                    Step::Run(GatewayOp::Export { name: self.temp_name.clone(), artifact: self.second.clone() })
                },
                Err(e) => {
                    self.phase = MovePhase::Finished;
                    self.pending = Some(RelocateError::Failed(e));
                    finish(&self.pending)
                },
            },
            MovePhase::ExportingCopy => match outcome {
                Ok(()) => {
                    self.phase = MovePhase::UnregisteringCopy;
                    Step::Run(GatewayOp::Unregister { name: self.temp_name.clone() })
                },
                Err(e) => {
                    self.phase = MovePhase::CleaningSecond;
                    self.pending = Some(rename_failure(&self.temp_name, &e));
                    Step::Run(GatewayOp::RemoveArtifact { artifact: self.second.clone() })
                },
            },
            MovePhase::UnregisteringCopy => match outcome {
                Ok(()) => {
                    self.phase = MovePhase::ImportingFinal;
                    Step::Run(GatewayOp::Import {
                        name: self.name.clone(),
                        location: self.location.clone(),
                        artifact: self.second.clone(),
                    })
                },
                Err(e) => {
                    self.phase = MovePhase::CleaningSecond;
                    self.pending = Some(rename_failure(&self.temp_name, &e));
                    Step::Run(GatewayOp::RemoveArtifact { artifact: self.second.clone() })
                },
            },
            MovePhase::ImportingFinal => match outcome {
                Ok(()) => {
                    self.phase = MovePhase::CleaningSecond;
                    Step::Run(GatewayOp::RemoveArtifact { artifact: self.second.clone() })
                },
                Err(e) => {
                    let mut message = String::from_str(
                        "Move failed after the instance was unregistered; it is kept in the archive '",
                    );
                    message.append(self.second.as_str());
                    message.append("': ");
                    message.append(e.as_str());
                    assert(message@ =~= stranded_message(self.second@, e@));
                    self.phase = MovePhase::Finished;
                    self.pending = Some(RelocateError::Stranded { archive: self.second.clone(), message });
                    finish(&self.pending)
                },
            },
            _ => {
                self.phase = MovePhase::Finished;
                finish(&self.pending)
            },
        }
    }
}

// ----------------------------------------------------------------------------------------------
// What the protocols guarantee
// ----------------------------------------------------------------------------------------------

/// The registered instance names after the operation `op` ends with outcome `o`: a successful
/// import adds its name, a successful unregistration removes it, and nothing else changes them.
pub open spec fn registry_after(reg: Set<Seq<char>>, op: OpView, o: Option<Seq<char>>) -> Set<Seq<char>> {
    match op {
        OpView::Import { name, .. } => if o is None { reg.insert(name) } else { reg },
        OpView::Unregister { name } => if o is None { reg.remove(name) } else { reg },
        _ => reg,
    }
}

/// An import at the new location that fails ends the move with the original untouched: the
/// move has issued only the export, the import and the archive's deletion, unregisters nothing,
/// and the original stays registered.
pub proof fn failed_copy_keeps_original(
    m0: MoveView,
    reg: Set<Seq<char>>,
    e: Seq<char>,
    cleanup: Option<Seq<char>>,
)
    requires
        m0.phase == MovePhase::NotStarted,
        m0.pending is None,
        m0.temp_name == moving_name(m0.name),
        reg.contains(m0.name),
    ensures
        ({
            let (m1, s1) = move_next(m0, None);
            let (m2, s2) = move_next(m1, None);
            let (m3, s3) = move_next(m2, Some(e));
            let (m4, s4) = move_next(m3, cleanup);
            &&& s1 is Run && s1->Run_0 is Export
            &&& s2 is Run && s2->Run_0 is Import
            &&& s3 is Run && s3->Run_0 is RemoveArtifact
            &&& s4 == StepView::Done(Some(ErrorView::Failed(preserved_message(e))))
            &&& registry_after(registry_after(registry_after(reg, s1->Run_0, None), s2->Run_0, Some(e)), s3->Run_0, cleanup).contains(m0.name)
        }),
{
}

/// A failure in the last phase, once the original is unregistered, while exporting the
/// temporary instance or unregistering its name, ends the move with a partial failure that names
/// the temporary name, and that name is still registered.
pub proof fn failed_rename_names_survivor(
    m0: MoveView,
    reg: Set<Seq<char>>,
    at_unregister: bool,
    e: Seq<char>,
    cleanup: Option<Seq<char>>,
)
    requires
        m0.phase == MovePhase::NotStarted,
        m0.pending is None,
        m0.temp_name == moving_name(m0.name),
    ensures
        ({
            let (m1, s1) = move_next(m0, None);
            let (m2, s2) = move_next(m1, None);
            let (m3, s3) = move_next(m2, None);
            let (m4, s4) = move_next(m3, cleanup);
            let (m5, s5) = move_next(m4, None);
            let r5 = registry_after(registry_after(registry_after(registry_after(reg, s1->Run_0, None), s2->Run_0, None), s3->Run_0, cleanup), s4->Run_0, None);
            let (m6, s6) = if at_unregister { move_next(m5, None) } else { (m5, s5) };
            let r6 = if at_unregister { registry_after(r5, s5->Run_0, None) } else { r5 };
            let (m7, s7) = move_next(m6, Some(e));
            let r7 = registry_after(r6, s6->Run_0, Some(e));
            let (m8, s8) = move_next(m7, cleanup);
            &&& s4 == StepView::Run(OpView::Unregister { name: m0.name })
            &&& s5 == StepView::Run(OpView::Export { name: m0.temp_name, artifact: m0.second })
            &&& at_unregister ==> s6 == StepView::Run(OpView::Unregister { name: m0.temp_name })
            &&& s8 == StepView::Done(Some(ErrorView::PartialFailure {
                surviving: m0.temp_name,
                message: rename_message(m0.temp_name, e),
            }))
            &&& registry_after(r7, s7->Run_0, cleanup).contains(m0.temp_name)
        }),
{
    reveal_strlit("-wsl-tamer-moving");
    assert(m0.temp_name.len() > m0.name.len());
}

/// A failed final import, once the original and the temporary name are both unregistered, ends
/// the move without deleting the second archive, which then holds the only copy, and the failure
/// names that archive.
pub proof fn failed_final_import_keeps_archive(m0: MoveView, e: Seq<char>, cleanup: Option<Seq<char>>)
    requires
        m0.phase == MovePhase::NotStarted,
        m0.pending is None,
        m0.temp_name == moving_name(m0.name),
    ensures
        ({
            let (m1, s1) = move_next(m0, None);
            let (m2, s2) = move_next(m1, None);
            let (m3, s3) = move_next(m2, None);
            let (m4, s4) = move_next(m3, cleanup);
            let (m5, s5) = move_next(m4, None);
            let (m6, s6) = move_next(m5, None);
            let (m7, s7) = move_next(m6, None);
            let (m8, s8) = move_next(m7, Some(e));
            &&& s4 == StepView::Run(OpView::Unregister { name: m0.name })
            &&& s6 == StepView::Run(OpView::Unregister { name: m0.temp_name })
            &&& s7 == StepView::Run(OpView::Import { name: m0.name, location: m0.location, artifact: m0.second })
            &&& m8.phase == MovePhase::Finished
            &&& s8 == StepView::Done(Some(ErrorView::Stranded {
                archive: m0.second,
                message: stranded_message(m0.second, e),
            }))
        }),
{
}

} // verus!
