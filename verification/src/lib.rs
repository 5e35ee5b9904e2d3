//! A work and sleep habit tracker: a queue of planned work periods, one
//! record per calendar day with its goals, and the blended daily score.

pub mod bedtime;
pub mod date;
pub mod queue;
pub mod record;
pub mod score;
pub mod session;
pub mod store;
pub mod text;

pub use bedtime::{Bedtime, TimeOfDay};
pub use date::Date;
pub use queue::{Period, TaskQueue};
pub use record::{WorkSleep, WorkSleepGoals};
pub use session::{BedtimeInput, Msg, NewTask, Session, SessionView};
pub use store::WorkSleepData;
