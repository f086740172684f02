//! A cooperative task-scheduling substrate: tasks of two execution domains,
//! a wake/park primitive that loses no wakeup, a blocking driver, and the
//! `join` and `select` combinators; beside it, the archetypes of the entities
//! that such tasks work on.
//!
//! Suspendable computations are polled through [`Suspend`]. Where a
//! computation announces a [`Script`], the contracts of this crate say exactly
//! what each poll of it, of a combinator over it, or of a task that carries it
//! returns. What happens to a woken task is left to the caller: a notification
//! hands the task out, and the caller queues it.

pub mod archetype;
pub mod block;
pub mod join;
pub mod kind;
pub mod notify;
pub mod protocol;
pub mod select;
pub mod suspend;
pub mod task;

pub use archetype::Archetype;
pub use archetype::Meta;
pub use block::block_on;
pub use block::poll;
pub use block::Block;
pub use join::join;
pub use join::Join;
pub use join::JoinExt;
pub use kind::Key;
pub use kind::Kind;
pub use kind::Local;
pub use kind::LocalCall;
pub use kind::LocalFut;
pub use kind::Remote;
pub use kind::RemoteCall;
pub use kind::RemoteFut;
pub use notify::Notify;
pub use notify::NotifyWaker;
pub use select::select;
pub use select::Either;
pub use select::Select;
pub use select::SelectExt;
pub use suspend::Poll;
pub use suspend::Script;
pub use suspend::Suspend;
pub use task::Act;
pub use task::Task;
pub use task::Work;
