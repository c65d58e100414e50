//! Identifiers of Taiga resources: each wraps the numeric id that the API uses.
use vstd::prelude::*;
use vstd::std_specs::convert::FromSpecImpl;

verus! {

/// Identifier of a Taiga resource, as the API writes it.
#[derive(Clone, Copy, Debug, Default, PartialEq, Eq, Structural, PartialOrd, Ord, Hash)]
pub struct ProjectId(pub u64);

impl From<u64> for ProjectId {
    fn from(value: u64) -> (id: Self) {
        ProjectId(value)
    }
}

impl FromSpecImpl<u64> for ProjectId {
    open spec fn obeys_from_spec() -> bool {
        true
    }

    open spec fn from_spec(value: u64) -> Self {
        ProjectId(value)
    }
}

/// Identifier of a Taiga resource, as the API writes it.
#[derive(Clone, Copy, Debug, Default, PartialEq, Eq, Structural, PartialOrd, Ord, Hash)]
pub struct UserStoryId(pub u64);

impl From<u64> for UserStoryId {
    fn from(value: u64) -> (id: Self) {
        UserStoryId(value)
    }
}

impl FromSpecImpl<u64> for UserStoryId {
    open spec fn obeys_from_spec() -> bool {
        true
    }

    open spec fn from_spec(value: u64) -> Self {
        UserStoryId(value)
    }
}

/// Identifier of a Taiga resource, as the API writes it.
#[derive(Clone, Copy, Debug, Default, PartialEq, Eq, Structural, PartialOrd, Ord, Hash)]
pub struct TaskId(pub u64);

impl From<u64> for TaskId {
    fn from(value: u64) -> (id: Self) {
        TaskId(value)
    }
}

impl FromSpecImpl<u64> for TaskId {
    open spec fn obeys_from_spec() -> bool {
        true
    }

    open spec fn from_spec(value: u64) -> Self {
        TaskId(value)
    }
}

/// Identifier of a Taiga resource, as the API writes it.
#[derive(Clone, Copy, Debug, Default, PartialEq, Eq, Structural, PartialOrd, Ord, Hash)]
pub struct IssueId(pub u64);

impl From<u64> for IssueId {
    fn from(value: u64) -> (id: Self) {
        IssueId(value)
    }
}

impl FromSpecImpl<u64> for IssueId {
    open spec fn obeys_from_spec() -> bool {
        true
    }

    open spec fn from_spec(value: u64) -> Self {
        IssueId(value)
    }
}

/// Identifier of a Taiga resource, as the API writes it.
#[derive(Clone, Copy, Debug, Default, PartialEq, Eq, Structural, PartialOrd, Ord, Hash)]
pub struct EpicId(pub u64);

impl From<u64> for EpicId {
    fn from(value: u64) -> (id: Self) {
        EpicId(value)
    }
}

impl FromSpecImpl<u64> for EpicId {
    open spec fn obeys_from_spec() -> bool {
        true
    }

    open spec fn from_spec(value: u64) -> Self {
        EpicId(value)
    }
}

/// Identifier of a Taiga resource, as the API writes it.
#[derive(Clone, Copy, Debug, Default, PartialEq, Eq, Structural, PartialOrd, Ord, Hash)]
pub struct MilestoneId(pub u64);

impl From<u64> for MilestoneId {
    fn from(value: u64) -> (id: Self) {
        MilestoneId(value)
    }
}

impl FromSpecImpl<u64> for MilestoneId {
    open spec fn obeys_from_spec() -> bool {
        true
    }

    open spec fn from_spec(value: u64) -> Self {
        MilestoneId(value)
    }
}

/// Identifier of a Taiga resource, as the API writes it.
#[derive(Clone, Copy, Debug, Default, PartialEq, Eq, Structural, PartialOrd, Ord, Hash)]
pub struct WikiPageId(pub u64);

impl From<u64> for WikiPageId {
    fn from(value: u64) -> (id: Self) {
        WikiPageId(value)
    }
}

impl FromSpecImpl<u64> for WikiPageId {
    open spec fn obeys_from_spec() -> bool {
        true
    }

    open spec fn from_spec(value: u64) -> Self {
        WikiPageId(value)
    }
}

/// Identifier of a Taiga resource, as the API writes it.
#[derive(Clone, Copy, Debug, Default, PartialEq, Eq, Structural, PartialOrd, Ord, Hash)]
pub struct UserId(pub u64);

impl From<u64> for UserId {
    fn from(value: u64) -> (id: Self) {
        UserId(value)
    }
}

impl FromSpecImpl<u64> for UserId {
    open spec fn obeys_from_spec() -> bool {
        true
    }

    open spec fn from_spec(value: u64) -> Self {
        UserId(value)
    }
}

/// Identifier of a Taiga resource, as the API writes it.
#[derive(Clone, Copy, Debug, Default, PartialEq, Eq, Structural, PartialOrd, Ord, Hash)]
pub struct RoleId(pub u64);

impl From<u64> for RoleId {
    fn from(value: u64) -> (id: Self) {
        RoleId(value)
    }
}

impl FromSpecImpl<u64> for RoleId {
    open spec fn obeys_from_spec() -> bool {
        true
    }

    open spec fn from_spec(value: u64) -> Self {
        RoleId(value)
    }
}

/// Identifier of a Taiga resource, as the API writes it.
#[derive(Clone, Copy, Debug, Default, PartialEq, Eq, Structural, PartialOrd, Ord, Hash)]
pub struct StatusId(pub u64);

impl From<u64> for StatusId {
    fn from(value: u64) -> (id: Self) {
        StatusId(value)
    }
}

impl FromSpecImpl<u64> for StatusId {
    open spec fn obeys_from_spec() -> bool {
        true
    }

    open spec fn from_spec(value: u64) -> Self {
        StatusId(value)
    }
}

/// Identifier of a Taiga resource, as the API writes it.
#[derive(Clone, Copy, Debug, Default, PartialEq, Eq, Structural, PartialOrd, Ord, Hash)]
pub struct IssueTypeId(pub u64);

impl From<u64> for IssueTypeId {
    fn from(value: u64) -> (id: Self) {
        IssueTypeId(value)
    }
}

impl FromSpecImpl<u64> for IssueTypeId {
    open spec fn obeys_from_spec() -> bool {
        true
    }

    open spec fn from_spec(value: u64) -> Self {
        IssueTypeId(value)
    }
}

/// Identifier of a Taiga resource, as the API writes it.
#[derive(Clone, Copy, Debug, Default, PartialEq, Eq, Structural, PartialOrd, Ord, Hash)]
pub struct PriorityId(pub u64);

impl From<u64> for PriorityId {
    fn from(value: u64) -> (id: Self) {
        PriorityId(value)
    }
}

impl FromSpecImpl<u64> for PriorityId {
    open spec fn obeys_from_spec() -> bool {
        true
    }

    open spec fn from_spec(value: u64) -> Self {
        PriorityId(value)
    }
}

/// Identifier of a Taiga resource, as the API writes it.
#[derive(Clone, Copy, Debug, Default, PartialEq, Eq, Structural, PartialOrd, Ord, Hash)]
pub struct SeverityId(pub u64);

impl From<u64> for SeverityId {
    fn from(value: u64) -> (id: Self) {
        SeverityId(value)
    }
}

impl FromSpecImpl<u64> for SeverityId {
    open spec fn obeys_from_spec() -> bool {
        true
    }

    open spec fn from_spec(value: u64) -> Self {
        SeverityId(value)
    }
}

/// Identifier of a Taiga resource, as the API writes it.
#[derive(Clone, Copy, Debug, Default, PartialEq, Eq, Structural, PartialOrd, Ord, Hash)]
pub struct PointId(pub u64);

impl From<u64> for PointId {
    fn from(value: u64) -> (id: Self) {
        PointId(value)
    }
}

impl FromSpecImpl<u64> for PointId {
    open spec fn obeys_from_spec() -> bool {
        true
    }

    open spec fn from_spec(value: u64) -> Self {
        PointId(value)
    }
}

/// Identifier of a Taiga resource, as the API writes it.
#[derive(Clone, Copy, Debug, Default, PartialEq, Eq, Structural, PartialOrd, Ord, Hash)]
pub struct AttachmentId(pub u64);

impl From<u64> for AttachmentId {
    fn from(value: u64) -> (id: Self) {
        AttachmentId(value)
    }
}

impl FromSpecImpl<u64> for AttachmentId {
    open spec fn obeys_from_spec() -> bool {
        true
    }

    open spec fn from_spec(value: u64) -> Self {
        AttachmentId(value)
    }
}

/// Identifier of a Taiga resource, as the API writes it.
#[derive(Clone, Copy, Debug, Default, PartialEq, Eq, Structural, PartialOrd, Ord, Hash)]
pub struct NotificationId(pub u64);

impl From<u64> for NotificationId {
    fn from(value: u64) -> (id: Self) {
        NotificationId(value)
    }
}

impl FromSpecImpl<u64> for NotificationId {
    open spec fn obeys_from_spec() -> bool {
        true
    }

    open spec fn from_spec(value: u64) -> Self {
        NotificationId(value)
    }
}

} // verus!
