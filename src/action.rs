use vstd::prelude::*;

verus! {

/// The lifecycle action that a background task performs. It is carried for
/// diagnostics only: no decision of the registry depends on it.
pub enum ActionKind {
    Create,
    Starting,
    Start,
    Updating,
    Update,
    Destroying,
    Destroy,
    Stopping,
    Stop,
    Restart,
    Finish,
    Fail,
    Die,
    Downloading,
    Download,
    Other(String),
}

impl ActionKind {
    /// An equal copy of this action.
    pub fn duplicate(&self) -> (r: ActionKind)
        ensures
            r == *self,
    {
        match self {
            ActionKind::Create => ActionKind::Create,
            ActionKind::Starting => ActionKind::Starting,
            ActionKind::Start => ActionKind::Start,
            ActionKind::Updating => ActionKind::Updating,
            ActionKind::Update => ActionKind::Update,
            ActionKind::Destroying => ActionKind::Destroying,
            ActionKind::Destroy => ActionKind::Destroy,
            ActionKind::Stopping => ActionKind::Stopping,
            ActionKind::Stop => ActionKind::Stop,
            ActionKind::Restart => ActionKind::Restart,
            ActionKind::Finish => ActionKind::Finish,
            ActionKind::Fail => ActionKind::Fail,
            ActionKind::Die => ActionKind::Die,
            ActionKind::Downloading => ActionKind::Downloading,
            ActionKind::Download => ActionKind::Download,
            ActionKind::Other(s) => ActionKind::Other(s.clone()),
        }
    }
}

} // verus!
