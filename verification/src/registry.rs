//! The entries of a task registry.
//!
//! A registry keeps what is known of each task under an identifier of its
//! own choosing; the queue sees a task only as a priority and a payload.

use vstd::prelude::*;

verus! {

/// What a registry knows of a task.
pub struct Task {
    pub description: String,
    pub priority: u8,
    pub completed: bool,
}

impl Task {
    /// A task that is not completed yet.
    pub fn new(description: &str, priority: u8) -> (task: Self)
        ensures
            task.description@ == description@,
            task.priority == priority,
            !task.completed,
    {
        Task { description: String::from_str(description), priority, completed: false }
    }

    /// Marks the task as completed. Nothing else changes.
    pub fn complete(&mut self)
        ensures
            final(self).completed,
            final(self).description == old(self).description,
            final(self).priority == old(self).priority,
    {
        self.completed = true;
    }

    /// Replaces the description and the priority, each where a new one is
    /// given. Whether the task is completed does not change.
    pub fn update(&mut self, description: Option<&str>, priority: Option<u8>)
        ensures
            final(self).description@ == match description {
                Some(text) => text@,
                None => old(self).description@,
            },
            final(self).priority == match priority {
                Some(p) => p,
                None => old(self).priority,
            },
            final(self).completed == old(self).completed,
    {
        if let Some(text) = description {
            self.description = String::from_str(text);
        }
        if let Some(p) = priority {
            self.priority = p;
        }
    }
}

} // verus!
