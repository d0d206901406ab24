//! The enumerations of the platform's data model, each with the names
//! under which its values are written in messages.

use vstd::prelude::*;
use crate::text::text_eq;

verus! {

/// Where a sponsor application stands.
#[derive(Clone, Copy, Debug, PartialEq, Eq, Structural, Hash)]
pub enum ApplicationStatus {
    Pending,
    Approved,
    Rejected,
}

impl ApplicationStatus {
    /// The name under which the value is written.
    pub open spec fn label(self) -> Seq<char> {
        match self {
            ApplicationStatus::Pending => "Pending"@,
            ApplicationStatus::Approved => "Approved"@,
            ApplicationStatus::Rejected => "Rejected"@,
        }
    }

    /// The value that `name` names, if any. Names are case-sensitive.
    pub open spec fn from_label(name: Seq<char>) -> Option<ApplicationStatus> {
        if name == "Pending"@ {
            Some(ApplicationStatus::Pending)
        } else if name == "Approved"@ {
            Some(ApplicationStatus::Approved)
        } else if name == "Rejected"@ {
            Some(ApplicationStatus::Rejected)
        } else {
            None
        }
    }

    /// The name under which the value is written.
    pub fn as_str(&self) -> (name: &'static str)
        ensures
            name@ == self.label(),
    {
        match self {
            ApplicationStatus::Pending => "Pending",
            ApplicationStatus::Approved => "Approved",
            ApplicationStatus::Rejected => "Rejected",
        }
    }

    /// Reads a value from its name.
    pub fn parse(name: &str) -> (value: Option<ApplicationStatus>)
        ensures
            value == ApplicationStatus::from_label(name@),
    {
        if text_eq(name, "Pending") {
            Some(ApplicationStatus::Pending)
        } else if text_eq(name, "Approved") {
            Some(ApplicationStatus::Approved)
        } else if text_eq(name, "Rejected") {
            Some(ApplicationStatus::Rejected)
        } else {
            None
        }
    }

    /// Every value is read back from its own name, so no two values share
    /// one.
    pub proof fn law_label_round_trip(value: ApplicationStatus)
        ensures
            ApplicationStatus::from_label(value.label()) == Some(value),
    {
        reveal_strlit("Pending");
        reveal_strlit("Approved");
        reveal_strlit("Rejected");
        assert("Pending"@.len() == 7);
        assert("Approved"@.len() == 8);
        assert("Rejected"@.len() == 8);
        assert("Approved"@[0] != "Rejected"@[0]);
    }
}

/// Where a request to be matched with a sponsor stands.
#[derive(Clone, Copy, Debug, PartialEq, Eq, Structural, Hash)]
pub enum MatchingStatus {
    Pending,
    Accepted,
    Declined,
}

impl MatchingStatus {
    /// The name under which the value is written.
    pub open spec fn label(self) -> Seq<char> {
        match self {
            MatchingStatus::Pending => "Pending"@,
            MatchingStatus::Accepted => "Accepted"@,
            MatchingStatus::Declined => "Declined"@,
        }
    }

    /// The value that `name` names, if any. Names are case-sensitive.
    pub open spec fn from_label(name: Seq<char>) -> Option<MatchingStatus> {
        if name == "Pending"@ {
            Some(MatchingStatus::Pending)
        } else if name == "Accepted"@ {
            Some(MatchingStatus::Accepted)
        } else if name == "Declined"@ {
            Some(MatchingStatus::Declined)
        } else {
            None
        }
    }

    /// The name under which the value is written.
    pub fn as_str(&self) -> (name: &'static str)
        ensures
            name@ == self.label(),
    {
        match self {
            MatchingStatus::Pending => "Pending",
            MatchingStatus::Accepted => "Accepted",
            MatchingStatus::Declined => "Declined",
        }
    }

    /// Reads a value from its name.
    pub fn parse(name: &str) -> (value: Option<MatchingStatus>)
        ensures
            value == MatchingStatus::from_label(name@),
    {
        if text_eq(name, "Pending") {
            Some(MatchingStatus::Pending)
        } else if text_eq(name, "Accepted") {
            Some(MatchingStatus::Accepted)
        } else if text_eq(name, "Declined") {
            Some(MatchingStatus::Declined)
        } else {
            None
        }
    }

    /// Every value is read back from its own name, so no two values share
    /// one.
    pub proof fn law_label_round_trip(value: MatchingStatus)
        ensures
            MatchingStatus::from_label(value.label()) == Some(value),
    {
        reveal_strlit("Pending");
        reveal_strlit("Accepted");
        reveal_strlit("Declined");
        assert("Pending"@.len() == 7);
        assert("Accepted"@.len() == 8);
        assert("Declined"@.len() == 8);
        assert("Accepted"@[0] != "Declined"@[0]);
    }
}

/// Where a group meeting stands.
#[derive(Clone, Copy, Debug, PartialEq, Eq, Structural, Hash)]
pub enum MeetingStatus {
    Upcoming,
    Ongoing,
    Ended,
}

impl MeetingStatus {
    /// The name under which the value is written.
    pub open spec fn label(self) -> Seq<char> {
        match self {
            MeetingStatus::Upcoming => "Upcoming"@,
            MeetingStatus::Ongoing => "Ongoing"@,
            MeetingStatus::Ended => "Ended"@,
        }
    }

    /// The value that `name` names, if any. Names are case-sensitive.
    pub open spec fn from_label(name: Seq<char>) -> Option<MeetingStatus> {
        if name == "Upcoming"@ {
            Some(MeetingStatus::Upcoming)
        } else if name == "Ongoing"@ {
            Some(MeetingStatus::Ongoing)
        } else if name == "Ended"@ {
            Some(MeetingStatus::Ended)
        } else {
            None
        }
    }

    /// The name under which the value is written.
    pub fn as_str(&self) -> (name: &'static str)
        ensures
            name@ == self.label(),
    {
        match self {
            MeetingStatus::Upcoming => "Upcoming",
            MeetingStatus::Ongoing => "Ongoing",
            MeetingStatus::Ended => "Ended",
        }
    }

    /// Reads a value from its name.
    pub fn parse(name: &str) -> (value: Option<MeetingStatus>)
        ensures
            value == MeetingStatus::from_label(name@),
    {
        if text_eq(name, "Upcoming") {
            Some(MeetingStatus::Upcoming)
        } else if text_eq(name, "Ongoing") {
            Some(MeetingStatus::Ongoing)
        } else if text_eq(name, "Ended") {
            Some(MeetingStatus::Ended)
        } else {
            None
        }
    }

    /// Every value is read back from its own name, so no two values share
    /// one.
    pub proof fn law_label_round_trip(value: MeetingStatus)
        ensures
            MeetingStatus::from_label(value.label()) == Some(value),
    {
        reveal_strlit("Upcoming");
        reveal_strlit("Ongoing");
        reveal_strlit("Ended");
        assert("Upcoming"@.len() == 8);
        assert("Ongoing"@.len() == 7);
        assert("Ended"@.len() == 5);
    }
}

/// Where a suggested support group stands.
#[derive(Clone, Copy, Debug, PartialEq, Eq, Structural, Hash)]
pub enum SupportGroupStatus {
    Pending,
    Approved,
    Rejected,
}

impl SupportGroupStatus {
    /// The name under which the value is written.
    pub open spec fn label(self) -> Seq<char> {
        match self {
            SupportGroupStatus::Pending => "Pending"@,
            SupportGroupStatus::Approved => "Approved"@,
            SupportGroupStatus::Rejected => "Rejected"@,
        }
    }

    /// The value that `name` names, if any. Names are case-sensitive.
    pub open spec fn from_label(name: Seq<char>) -> Option<SupportGroupStatus> {
        if name == "Pending"@ {
            Some(SupportGroupStatus::Pending)
        } else if name == "Approved"@ {
            Some(SupportGroupStatus::Approved)
        } else if name == "Rejected"@ {
            Some(SupportGroupStatus::Rejected)
        } else {
            None
        }
    }

    /// The name under which the value is written.
    pub fn as_str(&self) -> (name: &'static str)
        ensures
            name@ == self.label(),
    {
        match self {
            SupportGroupStatus::Pending => "Pending",
            SupportGroupStatus::Approved => "Approved",
            SupportGroupStatus::Rejected => "Rejected",
        }
    }

    /// Reads a value from its name.
    pub fn parse(name: &str) -> (value: Option<SupportGroupStatus>)
        ensures
            value == SupportGroupStatus::from_label(name@),
    {
        if text_eq(name, "Pending") {
            Some(SupportGroupStatus::Pending)
        } else if text_eq(name, "Approved") {
            Some(SupportGroupStatus::Approved)
        } else if text_eq(name, "Rejected") {
            Some(SupportGroupStatus::Rejected)
        } else {
            None
        }
    }

    /// Every value is read back from its own name, so no two values share
    /// one.
    pub proof fn law_label_round_trip(value: SupportGroupStatus)
        ensures
            SupportGroupStatus::from_label(value.label()) == Some(value),
    {
        reveal_strlit("Pending");
        reveal_strlit("Approved");
        reveal_strlit("Rejected");
        assert("Pending"@.len() == 7);
        assert("Approved"@.len() == 8);
        assert("Rejected"@.len() == 8);
        assert("Approved"@[0] != "Rejected"@[0]);
    }
}

/// The kind of thing that a report is about.
#[derive(Clone, Copy, Debug, PartialEq, Eq, Structural, Hash)]
pub enum ReportedType {
    Message,
    GroupChatMessage,
    GroupChat,
    User,
    Post,
    Comment,
}

impl ReportedType {
    /// The name under which the value is written.
    pub open spec fn label(self) -> Seq<char> {
        match self {
            ReportedType::Message => "Message"@,
            ReportedType::GroupChatMessage => "GroupChatMessage"@,
            ReportedType::GroupChat => "GroupChat"@,
            ReportedType::User => "User"@,
            ReportedType::Post => "Post"@,
            ReportedType::Comment => "Comment"@,
        }
    }

    /// The value that `name` names, if any. Names are case-sensitive.
    pub open spec fn from_label(name: Seq<char>) -> Option<ReportedType> {
        if name == "Message"@ {
            Some(ReportedType::Message)
        } else if name == "GroupChatMessage"@ {
            Some(ReportedType::GroupChatMessage)
        } else if name == "GroupChat"@ {
            Some(ReportedType::GroupChat)
        } else if name == "User"@ {
            Some(ReportedType::User)
        } else if name == "Post"@ {
            Some(ReportedType::Post)
        } else if name == "Comment"@ {
            Some(ReportedType::Comment)
        } else {
            None
        }
    }

    /// The name under which the value is written.
    pub fn as_str(&self) -> (name: &'static str)
        ensures
            name@ == self.label(),
    {
        match self {
            ReportedType::Message => "Message",
            ReportedType::GroupChatMessage => "GroupChatMessage",
            ReportedType::GroupChat => "GroupChat",
            ReportedType::User => "User",
            ReportedType::Post => "Post",
            ReportedType::Comment => "Comment",
        }
    }

    /// Reads a value from its name.
    pub fn parse(name: &str) -> (value: Option<ReportedType>)
        ensures
            value == ReportedType::from_label(name@),
    {
        if text_eq(name, "Message") {
            Some(ReportedType::Message)
        } else if text_eq(name, "GroupChatMessage") {
            Some(ReportedType::GroupChatMessage)
        } else if text_eq(name, "GroupChat") {
            Some(ReportedType::GroupChat)
        } else if text_eq(name, "User") {
            Some(ReportedType::User)
        } else if text_eq(name, "Post") {
            Some(ReportedType::Post)
        } else if text_eq(name, "Comment") {
            Some(ReportedType::Comment)
        } else {
            None
        }
    }

    /// Every value is read back from its own name, so no two values share
    /// one.
    pub proof fn law_label_round_trip(value: ReportedType)
        ensures
            ReportedType::from_label(value.label()) == Some(value),
    {
        reveal_strlit("Message");
        reveal_strlit("GroupChatMessage");
        reveal_strlit("GroupChat");
        reveal_strlit("User");
        reveal_strlit("Post");
        reveal_strlit("Comment");
        assert("Message"@.len() == 7);
        assert("GroupChatMessage"@.len() == 16);
        assert("GroupChat"@.len() == 9);
        assert("User"@.len() == 4);
        assert("Post"@.len() == 4);
        assert("Comment"@.len() == 7);
        assert("Message"@[0] != "Comment"@[0]);
        assert("User"@[0] != "Post"@[0]);
    }
}

/// Where a report stands.
#[derive(Clone, Copy, Debug, PartialEq, Eq, Structural, Hash)]
pub enum ReportStatus {
    Pending,
    Resolved,
    Reviewed,
}

impl ReportStatus {
    /// The name under which the value is written.
    pub open spec fn label(self) -> Seq<char> {
        match self {
            ReportStatus::Pending => "Pending"@,
            ReportStatus::Resolved => "Resolved"@,
            ReportStatus::Reviewed => "Reviewed"@,
        }
    }

    /// The value that `name` names, if any. Names are case-sensitive.
    pub open spec fn from_label(name: Seq<char>) -> Option<ReportStatus> {
        if name == "Pending"@ {
            Some(ReportStatus::Pending)
        } else if name == "Resolved"@ {
            Some(ReportStatus::Resolved)
        } else if name == "Reviewed"@ {
            Some(ReportStatus::Reviewed)
        } else {
            None
        }
    }

    /// The name under which the value is written.
    pub fn as_str(&self) -> (name: &'static str)
        ensures
            name@ == self.label(),
    {
        match self {
            ReportStatus::Pending => "Pending",
            ReportStatus::Resolved => "Resolved",
            ReportStatus::Reviewed => "Reviewed",
        }
    }

    /// Reads a value from its name.
    pub fn parse(name: &str) -> (value: Option<ReportStatus>)
        ensures
            value == ReportStatus::from_label(name@),
    {
        if text_eq(name, "Pending") {
            Some(ReportStatus::Pending)
        } else if text_eq(name, "Resolved") {
            Some(ReportStatus::Resolved)
        } else if text_eq(name, "Reviewed") {
            Some(ReportStatus::Reviewed)
        } else {
            None
        }
    }

    /// Every value is read back from its own name, so no two values share
    /// one.
    pub proof fn law_label_round_trip(value: ReportStatus)
        ensures
            ReportStatus::from_label(value.label()) == Some(value),
    {
        reveal_strlit("Pending");
        reveal_strlit("Resolved");
        reveal_strlit("Reviewed");
        assert("Pending"@.len() == 7);
        assert("Resolved"@.len() == 8);
        assert("Reviewed"@.len() == 8);
        assert("Resolved"@[2] != "Reviewed"@[2]);
    }
}

/// The occasion of an announcement.
#[derive(Clone, Copy, Debug, PartialEq, Eq, Structural, Hash)]
pub enum AnnouncementType {
    General,
    NewSponsorApplication,
    SponsorApplicationApproved,
    SponsorApplicationRejected,
    SupportGroupSuggestion,
    SupportGroupApproved,
    SupportGroupRejected,
    MeetingScheduled,
    MeetingReminder,
    MeetingStarted,
    MeetingEnded,
    GroupChatInvitation,
    PrivateChatInvitation,
    NewPost,
    NewComment,
    PostLike,
    CommentReply,
    NewResource,
    MatchingRequestSubmitted,
    MatchingRequestAccepted,
    MatchingRequestDeclined,
    AdminAction,
}

impl AnnouncementType {
    /// The name under which the value is written.
    pub open spec fn label(self) -> Seq<char> {
        match self {
            AnnouncementType::General => "General"@,
            AnnouncementType::NewSponsorApplication => "NewSponsorApplication"@,
            AnnouncementType::SponsorApplicationApproved => "SponsorApplicationApproved"@,
            AnnouncementType::SponsorApplicationRejected => "SponsorApplicationRejected"@,
            AnnouncementType::SupportGroupSuggestion => "SupportGroupSuggestion"@,
            AnnouncementType::SupportGroupApproved => "SupportGroupApproved"@,
            AnnouncementType::SupportGroupRejected => "SupportGroupRejected"@,
            AnnouncementType::MeetingScheduled => "MeetingScheduled"@,
            AnnouncementType::MeetingReminder => "MeetingReminder"@,
            AnnouncementType::MeetingStarted => "MeetingStarted"@,
            AnnouncementType::MeetingEnded => "MeetingEnded"@,
            AnnouncementType::GroupChatInvitation => "GroupChatInvitation"@,
            AnnouncementType::PrivateChatInvitation => "PrivateChatInvitation"@,
            AnnouncementType::NewPost => "NewPost"@,
            AnnouncementType::NewComment => "NewComment"@,
            AnnouncementType::PostLike => "PostLike"@,
            AnnouncementType::CommentReply => "CommentReply"@,
            AnnouncementType::NewResource => "NewResource"@,
            AnnouncementType::MatchingRequestSubmitted => "MatchingRequestSubmitted"@,
            AnnouncementType::MatchingRequestAccepted => "MatchingRequestAccepted"@,
            AnnouncementType::MatchingRequestDeclined => "MatchingRequestDeclined"@,
            AnnouncementType::AdminAction => "AdminAction"@,
        }
    }

    /// The value that `name` names, if any. Names are case-sensitive.
    pub open spec fn from_label(name: Seq<char>) -> Option<AnnouncementType> {
        if name == "General"@ {
            Some(AnnouncementType::General)
        } else if name == "NewSponsorApplication"@ {
            Some(AnnouncementType::NewSponsorApplication)
        } else if name == "SponsorApplicationApproved"@ {
            Some(AnnouncementType::SponsorApplicationApproved)
        } else if name == "SponsorApplicationRejected"@ {
            Some(AnnouncementType::SponsorApplicationRejected)
        } else if name == "SupportGroupSuggestion"@ {
            Some(AnnouncementType::SupportGroupSuggestion)
        } else if name == "SupportGroupApproved"@ {
            Some(AnnouncementType::SupportGroupApproved)
        } else if name == "SupportGroupRejected"@ {
            Some(AnnouncementType::SupportGroupRejected)
        } else if name == "MeetingScheduled"@ {
            Some(AnnouncementType::MeetingScheduled)
        } else if name == "MeetingReminder"@ {
            Some(AnnouncementType::MeetingReminder)
        } else if name == "MeetingStarted"@ {
            Some(AnnouncementType::MeetingStarted)
        } else if name == "MeetingEnded"@ {
            Some(AnnouncementType::MeetingEnded)
        } else if name == "GroupChatInvitation"@ {
            Some(AnnouncementType::GroupChatInvitation)
        } else if name == "PrivateChatInvitation"@ {
            Some(AnnouncementType::PrivateChatInvitation)
        } else if name == "NewPost"@ {
            Some(AnnouncementType::NewPost)
        } else if name == "NewComment"@ {
            Some(AnnouncementType::NewComment)
        } else if name == "PostLike"@ {
            Some(AnnouncementType::PostLike)
        } else if name == "CommentReply"@ {
            Some(AnnouncementType::CommentReply)
        } else if name == "NewResource"@ {
            Some(AnnouncementType::NewResource)
        } else if name == "MatchingRequestSubmitted"@ {
            Some(AnnouncementType::MatchingRequestSubmitted)
        } else if name == "MatchingRequestAccepted"@ {
            Some(AnnouncementType::MatchingRequestAccepted)
        } else if name == "MatchingRequestDeclined"@ {
            Some(AnnouncementType::MatchingRequestDeclined)
        } else if name == "AdminAction"@ {
            Some(AnnouncementType::AdminAction)
        } else {
            None
        }
    }

    /// The name under which the value is written.
    pub fn as_str(&self) -> (name: &'static str)
        ensures
            name@ == self.label(),
    {
        match self {
            AnnouncementType::General => "General",
            AnnouncementType::NewSponsorApplication => "NewSponsorApplication",
            AnnouncementType::SponsorApplicationApproved => "SponsorApplicationApproved",
            AnnouncementType::SponsorApplicationRejected => "SponsorApplicationRejected",
            AnnouncementType::SupportGroupSuggestion => "SupportGroupSuggestion",
            AnnouncementType::SupportGroupApproved => "SupportGroupApproved",
            AnnouncementType::SupportGroupRejected => "SupportGroupRejected",
            AnnouncementType::MeetingScheduled => "MeetingScheduled",
            AnnouncementType::MeetingReminder => "MeetingReminder",
            AnnouncementType::MeetingStarted => "MeetingStarted",
            AnnouncementType::MeetingEnded => "MeetingEnded",
            AnnouncementType::GroupChatInvitation => "GroupChatInvitation",
            AnnouncementType::PrivateChatInvitation => "PrivateChatInvitation",
            AnnouncementType::NewPost => "NewPost",
            AnnouncementType::NewComment => "NewComment",
            AnnouncementType::PostLike => "PostLike",
            AnnouncementType::CommentReply => "CommentReply",
            AnnouncementType::NewResource => "NewResource",
            AnnouncementType::MatchingRequestSubmitted => "MatchingRequestSubmitted",
            AnnouncementType::MatchingRequestAccepted => "MatchingRequestAccepted",
            AnnouncementType::MatchingRequestDeclined => "MatchingRequestDeclined",
            AnnouncementType::AdminAction => "AdminAction",
        }
    }

    /// Reads a value from its name.
    pub fn parse(name: &str) -> (value: Option<AnnouncementType>)
        ensures
            value == AnnouncementType::from_label(name@),
    {
        if text_eq(name, "General") {
            Some(AnnouncementType::General)
        } else if text_eq(name, "NewSponsorApplication") {
            Some(AnnouncementType::NewSponsorApplication)
        } else if text_eq(name, "SponsorApplicationApproved") {
            Some(AnnouncementType::SponsorApplicationApproved)
        } else if text_eq(name, "SponsorApplicationRejected") {
            Some(AnnouncementType::SponsorApplicationRejected)
        } else if text_eq(name, "SupportGroupSuggestion") {
            Some(AnnouncementType::SupportGroupSuggestion)
        } else if text_eq(name, "SupportGroupApproved") {
            Some(AnnouncementType::SupportGroupApproved)
        } else if text_eq(name, "SupportGroupRejected") {
            Some(AnnouncementType::SupportGroupRejected)
        } else if text_eq(name, "MeetingScheduled") {
            Some(AnnouncementType::MeetingScheduled)
        } else if text_eq(name, "MeetingReminder") {
            Some(AnnouncementType::MeetingReminder)
        } else if text_eq(name, "MeetingStarted") {
            Some(AnnouncementType::MeetingStarted)
        } else if text_eq(name, "MeetingEnded") {
            Some(AnnouncementType::MeetingEnded)
        } else if text_eq(name, "GroupChatInvitation") {
            Some(AnnouncementType::GroupChatInvitation)
        } else if text_eq(name, "PrivateChatInvitation") {
            Some(AnnouncementType::PrivateChatInvitation)
        } else if text_eq(name, "NewPost") {
            Some(AnnouncementType::NewPost)
        } else if text_eq(name, "NewComment") {
            Some(AnnouncementType::NewComment)
        } else if text_eq(name, "PostLike") {
            Some(AnnouncementType::PostLike)
        } else if text_eq(name, "CommentReply") {
            Some(AnnouncementType::CommentReply)
        } else if text_eq(name, "NewResource") {
            Some(AnnouncementType::NewResource)
        } else if text_eq(name, "MatchingRequestSubmitted") {
            Some(AnnouncementType::MatchingRequestSubmitted)
        } else if text_eq(name, "MatchingRequestAccepted") {
            Some(AnnouncementType::MatchingRequestAccepted)
        } else if text_eq(name, "MatchingRequestDeclined") {
            Some(AnnouncementType::MatchingRequestDeclined)
        } else if text_eq(name, "AdminAction") {
            Some(AnnouncementType::AdminAction)
        } else {
            None
        }
    }

    /// Every value is read back from its own name, so no two values share
    /// one.
    pub proof fn law_label_round_trip(value: AnnouncementType)
        ensures
            AnnouncementType::from_label(value.label()) == Some(value),
    {
        reveal_strlit("General");
        reveal_strlit("NewSponsorApplication");
        reveal_strlit("SponsorApplicationApproved");
        reveal_strlit("SponsorApplicationRejected");
        reveal_strlit("SupportGroupSuggestion");
        reveal_strlit("SupportGroupApproved");
        reveal_strlit("SupportGroupRejected");
        reveal_strlit("MeetingScheduled");
        reveal_strlit("MeetingReminder");
        reveal_strlit("MeetingStarted");
        reveal_strlit("MeetingEnded");
        reveal_strlit("GroupChatInvitation");
        reveal_strlit("PrivateChatInvitation");
        reveal_strlit("NewPost");
        reveal_strlit("NewComment");
        reveal_strlit("PostLike");
        reveal_strlit("CommentReply");
        reveal_strlit("NewResource");
        reveal_strlit("MatchingRequestSubmitted");
        reveal_strlit("MatchingRequestAccepted");
        reveal_strlit("MatchingRequestDeclined");
        reveal_strlit("AdminAction");
        assert("General"@.len() == 7);
        assert("NewSponsorApplication"@.len() == 21);
        assert("SponsorApplicationApproved"@.len() == 26);
        assert("SponsorApplicationRejected"@.len() == 26);
        assert("SupportGroupSuggestion"@.len() == 22);
        assert("SupportGroupApproved"@.len() == 20);
        assert("SupportGroupRejected"@.len() == 20);
        assert("MeetingScheduled"@.len() == 16);
        assert("MeetingReminder"@.len() == 15);
        assert("MeetingStarted"@.len() == 14);
        assert("MeetingEnded"@.len() == 12);
        assert("GroupChatInvitation"@.len() == 19);
        assert("PrivateChatInvitation"@.len() == 21);
        assert("NewPost"@.len() == 7);
        assert("NewComment"@.len() == 10);
        assert("PostLike"@.len() == 8);
        assert("CommentReply"@.len() == 12);
        assert("NewResource"@.len() == 11);
        assert("MatchingRequestSubmitted"@.len() == 24);
        assert("MatchingRequestAccepted"@.len() == 23);
        assert("MatchingRequestDeclined"@.len() == 23);
        assert("AdminAction"@.len() == 11);
        assert("General"@[0] != "NewPost"@[0]);
        assert("NewSponsorApplication"@[0] != "PrivateChatInvitation"@[0]);
        assert("SponsorApplicationApproved"@[18] != "SponsorApplicationRejected"@[18]);
        assert("SupportGroupApproved"@[12] != "SupportGroupRejected"@[12]);
        assert("MeetingEnded"@[0] != "CommentReply"@[0]);
        assert("NewResource"@[0] != "AdminAction"@[0]);
        assert("MatchingRequestAccepted"@[15] != "MatchingRequestDeclined"@[15]);
    }
}

/// The kind of thing that an announcement points to.
#[derive(Clone, Copy, Debug, PartialEq, Eq, Structural, Hash)]
pub enum AnnouncementTarget {
    User,
    SponsorApplication,
    SupportGroup,
    GroupMeeting,
    GroupChat,
    Chat,
    Post,
    Comment,
    Resource,
    MatchingRequest,
}

impl AnnouncementTarget {
    /// The name under which the value is written.
    pub open spec fn label(self) -> Seq<char> {
        match self {
            AnnouncementTarget::User => "User"@,
            AnnouncementTarget::SponsorApplication => "SponsorApplication"@,
            AnnouncementTarget::SupportGroup => "SupportGroup"@,
            AnnouncementTarget::GroupMeeting => "GroupMeeting"@,
            AnnouncementTarget::GroupChat => "GroupChat"@,
            AnnouncementTarget::Chat => "Chat"@,
            AnnouncementTarget::Post => "Post"@,
            AnnouncementTarget::Comment => "Comment"@,
            AnnouncementTarget::Resource => "Resource"@,
            AnnouncementTarget::MatchingRequest => "MatchingRequest"@,
        }
    }

    /// The value that `name` names, if any. Names are case-sensitive.
    pub open spec fn from_label(name: Seq<char>) -> Option<AnnouncementTarget> {
        if name == "User"@ {
            Some(AnnouncementTarget::User)
        } else if name == "SponsorApplication"@ {
            Some(AnnouncementTarget::SponsorApplication)
        } else if name == "SupportGroup"@ {
            Some(AnnouncementTarget::SupportGroup)
        } else if name == "GroupMeeting"@ {
            Some(AnnouncementTarget::GroupMeeting)
        } else if name == "GroupChat"@ {
            Some(AnnouncementTarget::GroupChat)
        } else if name == "Chat"@ {
            Some(AnnouncementTarget::Chat)
        } else if name == "Post"@ {
            Some(AnnouncementTarget::Post)
        } else if name == "Comment"@ {
            Some(AnnouncementTarget::Comment)
        } else if name == "Resource"@ {
            Some(AnnouncementTarget::Resource)
        } else if name == "MatchingRequest"@ {
            Some(AnnouncementTarget::MatchingRequest)
        } else {
            None
        }
    }

    /// The name under which the value is written.
    pub fn as_str(&self) -> (name: &'static str)
        ensures
            name@ == self.label(),
    {
        match self {
            AnnouncementTarget::User => "User",
            AnnouncementTarget::SponsorApplication => "SponsorApplication",
            AnnouncementTarget::SupportGroup => "SupportGroup",
            AnnouncementTarget::GroupMeeting => "GroupMeeting",
            AnnouncementTarget::GroupChat => "GroupChat",
            AnnouncementTarget::Chat => "Chat",
            AnnouncementTarget::Post => "Post",
            AnnouncementTarget::Comment => "Comment",
            AnnouncementTarget::Resource => "Resource",
            AnnouncementTarget::MatchingRequest => "MatchingRequest",
        }
    }

    /// Reads a value from its name.
    pub fn parse(name: &str) -> (value: Option<AnnouncementTarget>)
        ensures
            value == AnnouncementTarget::from_label(name@),
    {
        if text_eq(name, "User") {
            Some(AnnouncementTarget::User)
        } else if text_eq(name, "SponsorApplication") {
            Some(AnnouncementTarget::SponsorApplication)
        } else if text_eq(name, "SupportGroup") {
            Some(AnnouncementTarget::SupportGroup)
        } else if text_eq(name, "GroupMeeting") {
            Some(AnnouncementTarget::GroupMeeting)
        } else if text_eq(name, "GroupChat") {
            Some(AnnouncementTarget::GroupChat)
        } else if text_eq(name, "Chat") {
            Some(AnnouncementTarget::Chat)
        } else if text_eq(name, "Post") {
            Some(AnnouncementTarget::Post)
        } else if text_eq(name, "Comment") {
            Some(AnnouncementTarget::Comment)
        } else if text_eq(name, "Resource") {
            Some(AnnouncementTarget::Resource)
        } else if text_eq(name, "MatchingRequest") {
            Some(AnnouncementTarget::MatchingRequest)
        } else {
            None
        }
    }

    /// Every value is read back from its own name, so no two values share
    /// one.
    pub proof fn law_label_round_trip(value: AnnouncementTarget)
        ensures
            AnnouncementTarget::from_label(value.label()) == Some(value),
    {
        reveal_strlit("User");
        reveal_strlit("SponsorApplication");
        reveal_strlit("SupportGroup");
        reveal_strlit("GroupMeeting");
        reveal_strlit("GroupChat");
        reveal_strlit("Chat");
        reveal_strlit("Post");
        reveal_strlit("Comment");
        reveal_strlit("Resource");
        reveal_strlit("MatchingRequest");
        assert("User"@.len() == 4);
        assert("SponsorApplication"@.len() == 18);
        assert("SupportGroup"@.len() == 12);
        assert("GroupMeeting"@.len() == 12);
        assert("GroupChat"@.len() == 9);
        assert("Chat"@.len() == 4);
        assert("Post"@.len() == 4);
        assert("Comment"@.len() == 7);
        assert("Resource"@.len() == 8);
        assert("MatchingRequest"@.len() == 15);
        assert("User"@[0] != "Chat"@[0]);
        assert("User"@[0] != "Post"@[0]);
        assert("SupportGroup"@[0] != "GroupMeeting"@[0]);
        assert("Chat"@[0] != "Post"@[0]);
    }
}

} // verus!
