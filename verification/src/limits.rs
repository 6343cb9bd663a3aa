//! Fixed resource bounds of one navigation worker.

use vstd::prelude::*;

verus! {

/// Hard byte bound of one navigation URL.
pub const MAX_NAVIGATION_URL_BYTES: usize = 16 * 1024;

/// Hard bound of the command and event queues.
pub const MAX_QUEUE_CAPACITY: usize = 4096;

/// Hard bound of admitted top-level contexts.
pub const MAX_CONTEXTS: usize = 1024;

/// Hard bound of one frame, and of all retained frames together.
pub const MAX_FRAME_BYTES: usize = 256 * 1024 * 1024;

/// Frame bound of default limits.
pub const DEFAULT_FRAME_BYTES: usize = 128 * 1024 * 1024;

/// Hard bound of the retained-document node budget.
pub const MAX_RETAINED_DOCUMENT_NODES: usize = 64 * 1024 * 1024;

/// Retained-document node budget of fresh limits.
pub const DEFAULT_RETAINED_DOCUMENT_NODES: usize = 4 * 1024 * 1024;

/// Hard bound of the retained mutation-result budget.
pub const MAX_RETAINED_MUTATION_RESULT_NODES: usize = 4 * 1024 * 1024;

/// Retained mutation-result budget of fresh limits.
pub const DEFAULT_RETAINED_MUTATION_RESULT_NODES: usize = 64 * 1024;

/// Hard bound of the pending mutation-payload budget.
pub const MAX_PENDING_MUTATION_PAYLOAD_BYTES: usize = 256 * 1024 * 1024;

/// Pending mutation-payload budget of fresh limits.
pub const DEFAULT_PENDING_MUTATION_PAYLOAD_BYTES: usize = 16 * 1024 * 1024;

/// Smallest event queue that holds a started event next to one indivisible
/// commit and frame-ready pair.
pub const MIN_EVENT_CAPACITY: usize = 3;

/// Invalid engine bound.
#[derive(Clone, Copy, Debug, PartialEq, Eq)]
pub enum EngineLimitsError {
    /// A required bound is zero.
    Zero {
        /// Name of the rejected bound.
        field: &'static str,
    },
    /// A bound exceeds its hard cap.
    TooLarge {
        /// Name of the rejected bound.
        field: &'static str,
        /// Supplied value.
        actual: usize,
        /// Greatest accepted value.
        maximum: usize,
    },
    /// A bound is below a required minimum.
    TooSmall {
        /// Name of the rejected bound.
        field: &'static str,
        /// Supplied value.
        actual: usize,
        /// Smallest accepted value.
        minimum: usize,
    },
}

/// What a bound must satisfy on its own: nonzero, and at most `maximum`.
pub open spec fn bound_error(field: &'static str, value: usize, maximum: usize) -> Option<
    EngineLimitsError,
> {
    if value == 0 {
        Some(EngineLimitsError::Zero { field })
    } else if value > maximum {
        Some(EngineLimitsError::TooLarge { field, actual: value, maximum })
    } else {
        None
    }
}

/// Accepts `value` exactly when it is nonzero and at most `maximum`.
pub fn checked_nonzero_bounded(field: &'static str, value: usize, maximum: usize) -> (result: Result<
    usize,
    EngineLimitsError,
>)
    ensures
        result == match bound_error(field, value, maximum) {
            Some(error) => Err(error),
            None => Ok(value),
        },
{
    if value == 0 {
        return Err(EngineLimitsError::Zero { field });
    }
    if value > maximum {
        return Err(EngineLimitsError::TooLarge { field, actual: value, maximum });
    }
    Ok(value)
}

/// The plain numbers behind [`EngineLimits`].
pub struct LimitValues {
    /// Maximum queued navigations, excluding the one executing.
    pub command_capacity: usize,
    /// Maximum ordinary queued events. One terminal slot is reserved separately.
    pub event_capacity: usize,
    /// Maximum number of admitted top-level contexts.
    pub max_contexts: usize,
    /// Maximum bytes in one composed executor frame.
    pub max_frame_bytes: usize,
    /// Maximum aggregate bytes retained behind all current frame leases.
    pub max_retained_frame_bytes: usize,
    /// Maximum conservative node charge across retained live documents and
    /// admitted mutation creations.
    pub max_retained_document_nodes: usize,
    /// Maximum result units retained behind untaken mutation-result leases.
    /// Each lease consumes at least one unit; nonempty mappings consume one
    /// unit per node.
    pub max_retained_mutation_result_nodes: usize,
    /// Maximum normalized command/string bytes retained by queued mutations.
    pub max_pending_mutation_payload_bytes: usize,
}

impl LimitValues {
    /// Every bound is nonzero and below its hard cap, one undrained started
    /// event leaves room for an indivisible pair, and at least one
    /// maximum-sized frame can be retained.
    pub open spec fn valid(self) -> bool {
        &&& 0 < self.command_capacity <= MAX_QUEUE_CAPACITY
        &&& MIN_EVENT_CAPACITY <= self.event_capacity <= MAX_QUEUE_CAPACITY
        &&& 0 < self.max_contexts <= MAX_CONTEXTS
        &&& 0 < self.max_frame_bytes <= self.max_retained_frame_bytes <= MAX_FRAME_BYTES
        &&& 0 < self.max_retained_document_nodes <= MAX_RETAINED_DOCUMENT_NODES
        &&& 0 < self.max_retained_mutation_result_nodes <= MAX_RETAINED_MUTATION_RESULT_NODES
        &&& 0 < self.max_pending_mutation_payload_bytes <= MAX_PENDING_MUTATION_PAYLOAD_BYTES
    }
}

/// First reason to refuse the five constructor bounds, in checking order.
pub open spec fn limits_error(
    command_capacity: usize,
    event_capacity: usize,
    max_contexts: usize,
    max_frame_bytes: usize,
    max_retained_frame_bytes: usize,
) -> Option<EngineLimitsError> {
    if let Some(error) = bound_error("command_capacity", command_capacity, MAX_QUEUE_CAPACITY) {
        Some(error)
    } else if let Some(error) = bound_error("event_capacity", event_capacity, MAX_QUEUE_CAPACITY) {
        Some(error)
    } else if event_capacity < MIN_EVENT_CAPACITY {
        Some(
            EngineLimitsError::TooSmall {
                field: "event_capacity",
                actual: event_capacity,
                minimum: MIN_EVENT_CAPACITY,
            },
        )
    } else if let Some(error) = bound_error("max_contexts", max_contexts, MAX_CONTEXTS) {
        Some(error)
    } else if let Some(error) = bound_error("max_frame_bytes", max_frame_bytes, MAX_FRAME_BYTES) {
        Some(error)
    } else if let Some(error) = bound_error(
        "max_retained_frame_bytes",
        max_retained_frame_bytes,
        MAX_FRAME_BYTES,
    ) {
        Some(error)
    } else if max_retained_frame_bytes < max_frame_bytes {
        Some(
            EngineLimitsError::TooSmall {
                field: "max_retained_frame_bytes",
                actual: max_retained_frame_bytes,
                minimum: max_frame_bytes,
            },
        )
    } else {
        None
    }
}

/// Fixed resource bounds for one navigation worker.
#[derive(Clone, Copy, Debug, PartialEq, Eq, Structural)]
pub struct EngineLimits {
    command_capacity: usize,
    event_capacity: usize,
    max_contexts: usize,
    max_frame_bytes: usize,
    max_retained_frame_bytes: usize,
    max_retained_document_nodes: usize,
    max_retained_mutation_result_nodes: usize,
    max_pending_mutation_payload_bytes: usize,
}

impl View for EngineLimits {
    type V = LimitValues;

    closed spec fn view(&self) -> LimitValues {
        LimitValues {
            command_capacity: self.command_capacity,
            event_capacity: self.event_capacity,
            max_contexts: self.max_contexts,
            max_frame_bytes: self.max_frame_bytes,
            max_retained_frame_bytes: self.max_retained_frame_bytes,
            max_retained_document_nodes: self.max_retained_document_nodes,
            max_retained_mutation_result_nodes: self.max_retained_mutation_result_nodes,
            max_pending_mutation_payload_bytes: self.max_pending_mutation_payload_bytes,
        }
    }
}

impl EngineLimits {
    #[verifier::type_invariant]
    spec fn type_inv(self) -> bool {
        self@.valid()
    }

    /// Creates checked worker, context, and retained-frame bounds; the three
    /// document budgets start at their defaults.
    ///
    /// `event_capacity` must be at least three so one undrained started event
    /// cannot prevent the indivisible commit and frame-ready transaction.
    pub fn new(
        command_capacity: usize,
        event_capacity: usize,
        max_contexts: usize,
        max_frame_bytes: usize,
        max_retained_frame_bytes: usize,
    ) -> (result: Result<Self, EngineLimitsError>)
        ensures
            match limits_error(
                command_capacity,
                event_capacity,
                max_contexts,
                max_frame_bytes,
                max_retained_frame_bytes,
            ) {
                Some(error) => result == Err::<Self, _>(error),
                None => result is Ok && result->Ok_0@ == (LimitValues {
                    command_capacity,
                    event_capacity,
                    max_contexts,
                    max_frame_bytes,
                    max_retained_frame_bytes,
                    max_retained_document_nodes: DEFAULT_RETAINED_DOCUMENT_NODES,
                    max_retained_mutation_result_nodes: DEFAULT_RETAINED_MUTATION_RESULT_NODES,
                    max_pending_mutation_payload_bytes: DEFAULT_PENDING_MUTATION_PAYLOAD_BYTES,
                }),
            },
    {
        let command_capacity: usize = checked_nonzero_bounded(
            "command_capacity",
            command_capacity,
            MAX_QUEUE_CAPACITY,
        )?;
        let event_capacity: usize = checked_nonzero_bounded(
            "event_capacity",
            event_capacity,
            MAX_QUEUE_CAPACITY,
        )?;
        if event_capacity < MIN_EVENT_CAPACITY {
            return Err(
                EngineLimitsError::TooSmall {
                    field: "event_capacity",
                    actual: event_capacity,
                    minimum: MIN_EVENT_CAPACITY,
                },
            );
        }
        let max_contexts: usize = checked_nonzero_bounded(
            "max_contexts",
            max_contexts,
            MAX_CONTEXTS,
        )?;
        let max_frame_bytes: usize = checked_nonzero_bounded(
            "max_frame_bytes",
            max_frame_bytes,
            MAX_FRAME_BYTES,
        )?;
        let max_retained_frame_bytes: usize = checked_nonzero_bounded(
            "max_retained_frame_bytes",
            max_retained_frame_bytes,
            MAX_FRAME_BYTES,
        )?;
        if max_retained_frame_bytes < max_frame_bytes {
            return Err(
                EngineLimitsError::TooSmall {
                    field: "max_retained_frame_bytes",
                    actual: max_retained_frame_bytes,
                    minimum: max_frame_bytes,
                },
            );
        }
        Ok(
            EngineLimits {
                command_capacity,
                event_capacity,
                max_contexts,
                max_frame_bytes,
                max_retained_frame_bytes,
                max_retained_document_nodes: DEFAULT_RETAINED_DOCUMENT_NODES,
                max_retained_mutation_result_nodes: DEFAULT_RETAINED_MUTATION_RESULT_NODES,
                max_pending_mutation_payload_bytes: DEFAULT_PENDING_MUTATION_PAYLOAD_BYTES,
            },
        )
    }

    /// Maximum queued navigations, excluding the one executing.
    pub fn command_capacity(self) -> (value: usize)
        ensures
            value == self@.command_capacity,
            self@.valid(),
    {
        proof {
            use_type_invariant(&self);
        }
        self.command_capacity
    }

    /// Maximum ordinary queued events. One terminal slot is reserved separately.
    pub fn event_capacity(self) -> (value: usize)
        ensures
            value == self@.event_capacity,
            self@.valid(),
    {
        proof {
            use_type_invariant(&self);
        }
        self.event_capacity
    }

    /// Maximum number of admitted top-level contexts.
    pub fn max_contexts(self) -> (value: usize)
        ensures
            value == self@.max_contexts,
            self@.valid(),
    {
        proof {
            use_type_invariant(&self);
        }
        self.max_contexts
    }

    /// Maximum bytes in one composed executor frame.
    pub fn max_frame_bytes(self) -> (value: usize)
        ensures
            value == self@.max_frame_bytes,
            self@.valid(),
    {
        proof {
            use_type_invariant(&self);
        }
        self.max_frame_bytes
    }

    /// Maximum aggregate bytes retained behind all current frame leases.
    pub fn max_retained_frame_bytes(self) -> (value: usize)
        ensures
            value == self@.max_retained_frame_bytes,
            self@.valid(),
    {
        proof {
            use_type_invariant(&self);
        }
        self.max_retained_frame_bytes
    }

    /// Maximum conservative node charge across retained live documents and
    /// admitted mutation creations.
    pub fn max_retained_document_nodes(self) -> (value: usize)
        ensures
            value == self@.max_retained_document_nodes,
            self@.valid(),
    {
        proof {
            use_type_invariant(&self);
        }
        self.max_retained_document_nodes
    }

    /// Maximum result units retained behind untaken mutation-result leases.
    /// Each lease consumes at least one unit; nonempty mappings consume one
    /// unit per node.
    pub fn max_retained_mutation_result_nodes(self) -> (value: usize)
        ensures
            value == self@.max_retained_mutation_result_nodes,
            self@.valid(),
    {
        proof {
            use_type_invariant(&self);
        }
        self.max_retained_mutation_result_nodes
    }

    /// Maximum normalized command/string bytes retained by queued mutations.
    pub fn max_pending_mutation_payload_bytes(self) -> (value: usize)
        ensures
            value == self@.max_pending_mutation_payload_bytes,
            self@.valid(),
    {
        proof {
            use_type_invariant(&self);
        }
        self.max_pending_mutation_payload_bytes
    }

    /// Replaces `max_retained_document_nodes` within its hard cap and keeps every
    /// other bound.
    pub fn with_max_retained_document_nodes(self, maximum: usize) -> (result: Result<Self, EngineLimitsError>)
        ensures
            match bound_error("max_retained_document_nodes", maximum, MAX_RETAINED_DOCUMENT_NODES) {
                Some(error) => result == Err::<Self, _>(error),
                None => result is Ok && result->Ok_0@ == (LimitValues {
                    max_retained_document_nodes: maximum,
                    ..self@
                }),
            },
    {
        proof {
            use_type_invariant(&self);
        }
        let max_retained_document_nodes: usize = checked_nonzero_bounded(
            "max_retained_document_nodes",
            maximum,
            MAX_RETAINED_DOCUMENT_NODES,
        )?;
        Ok(EngineLimits { max_retained_document_nodes, ..self })
    }

    /// Replaces `max_retained_mutation_result_nodes` within its hard cap and keeps every
    /// other bound.
    pub fn with_max_retained_mutation_result_nodes(self, maximum: usize) -> (result: Result<Self, EngineLimitsError>)
        ensures
            match bound_error("max_retained_mutation_result_nodes", maximum, MAX_RETAINED_MUTATION_RESULT_NODES) {
                Some(error) => result == Err::<Self, _>(error),
                None => result is Ok && result->Ok_0@ == (LimitValues {
                    max_retained_mutation_result_nodes: maximum,
                    ..self@
                }),
            },
    {
        proof {
            use_type_invariant(&self);
        }
        let max_retained_mutation_result_nodes: usize = checked_nonzero_bounded(
            "max_retained_mutation_result_nodes",
            maximum,
            MAX_RETAINED_MUTATION_RESULT_NODES,
        )?;
        Ok(EngineLimits { max_retained_mutation_result_nodes, ..self })
    }

    /// Replaces `max_pending_mutation_payload_bytes` within its hard cap and keeps every
    /// other bound.
    pub fn with_max_pending_mutation_payload_bytes(self, maximum: usize) -> (result: Result<Self, EngineLimitsError>)
        ensures
            match bound_error("max_pending_mutation_payload_bytes", maximum, MAX_PENDING_MUTATION_PAYLOAD_BYTES) {
                Some(error) => result == Err::<Self, _>(error),
                None => result is Ok && result->Ok_0@ == (LimitValues {
                    max_pending_mutation_payload_bytes: maximum,
                    ..self@
                }),
            },
    {
        proof {
            use_type_invariant(&self);
        }
        let max_pending_mutation_payload_bytes: usize = checked_nonzero_bounded(
            "max_pending_mutation_payload_bytes",
            maximum,
            MAX_PENDING_MUTATION_PAYLOAD_BYTES,
        )?;
        Ok(EngineLimits { max_pending_mutation_payload_bytes, ..self })
    }
}

impl Default for EngineLimits {
    fn default() -> (limits: Self)
        ensures
            limits@ == (LimitValues {
                command_capacity: 16,
                event_capacity: 32,
                max_contexts: 16,
                max_frame_bytes: DEFAULT_FRAME_BYTES,
                max_retained_frame_bytes: MAX_FRAME_BYTES,
                max_retained_document_nodes: DEFAULT_RETAINED_DOCUMENT_NODES,
                max_retained_mutation_result_nodes: DEFAULT_RETAINED_MUTATION_RESULT_NODES,
                max_pending_mutation_payload_bytes: DEFAULT_PENDING_MUTATION_PAYLOAD_BYTES,
            }),
    {
        EngineLimits {
            command_capacity: 16,
            event_capacity: 32,
            max_contexts: 16,
            max_frame_bytes: DEFAULT_FRAME_BYTES,
            max_retained_frame_bytes: MAX_FRAME_BYTES,
            max_retained_document_nodes: DEFAULT_RETAINED_DOCUMENT_NODES,
            max_retained_mutation_result_nodes: DEFAULT_RETAINED_MUTATION_RESULT_NODES,
            max_pending_mutation_payload_bytes: DEFAULT_PENDING_MUTATION_PAYLOAD_BYTES,
        }
    }
}

} // verus!
