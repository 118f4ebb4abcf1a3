//! A work/break interval timer: the scheduling engine behind a single-user
//! productivity timer.
//!
//! Two state machines cooperate through two one-directional channels.  The
//! timer process ([`timer::ProcessState`]) turns commands and the passing of
//! time into events; the session record ([`session::PomodoState`]) gates the
//! start of a task and folds the events back into the phase and the task
//! history that the rest of the application sees.  The module [`system`] puts
//! the two machines and the channels together and shows that they stay in
//! step; the module [`timing`] shows what the events then say about time.

pub mod channel;
pub mod clock;
pub mod protocol;
pub mod session;
pub mod session_lemmas;
pub mod system;
pub mod task;
pub mod timer;
pub mod timing;

pub use clock::Timestamp;
pub use protocol::PomodoroCommand;
pub use protocol::PomodoroEvent;
pub use protocol::TimerState;
pub use session::Notification;
pub use session::PomodoState;
pub use session::StartError;
pub use task::Task;
pub use timer::ProcessState;
pub use timer::TimerAction;
