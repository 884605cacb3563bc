//! The unit of work moved through the pipeline: a notification payload and
//! the recipients it is addressed to.

use vstd::prelude::*;

verus! {

/// The provider-agnostic payload describing what to show a recipient.
///
/// The pipeline never interprets these fields: it only forwards them onto the
/// wire. The identities (author, message, channel) and references (icon,
/// image, url) are opaque strings; the timestamp is an opaque integer.
#[derive(Clone, Debug)]
pub struct Notification {
    /// Identity of the author the notification is about.
    pub author: String,
    /// Reference to the icon to show.
    pub icon: String,
    /// Optional reference to an image to show.
    pub image: Option<String>,
    /// Body text of the notification.
    pub body: String,
    /// De-duplication tag.
    pub tag: String,
    /// Timestamp of the originating event.
    pub timestamp: u64,
    /// Optional URL of the source object.
    pub url: Option<String>,
    /// Optional identity of the originating message.
    pub message: Option<String>,
    /// Optional identity of the originating channel.
    pub channel: Option<String>,
}

/// Mathematical image of a [`Notification`]: each text field as its character
/// sequence.
pub struct NotificationView {
    pub author: Seq<char>,
    pub icon: Seq<char>,
    pub image: Option<Seq<char>>,
    pub body: Seq<char>,
    pub tag: Seq<char>,
    pub timestamp: u64,
    pub url: Option<Seq<char>>,
    pub message: Option<Seq<char>>,
    pub channel: Option<Seq<char>>,
}

impl View for Notification {
    type V = NotificationView;

    open spec fn view(&self) -> NotificationView {
        NotificationView {
            author: self.author@,
            icon: self.icon@,
            image: self.image.deep_view(),
            body: self.body@,
            tag: self.tag@,
            timestamp: self.timestamp,
            url: self.url.deep_view(),
            message: self.message.deep_view(),
            channel: self.channel.deep_view(),
        }
    }
}

impl DeepView for Notification {
    type V = NotificationView;

    open spec fn deep_view(&self) -> NotificationView {
        self.view()
    }
}

/// A buffered unit of work: one notification, addressed to the recipients
/// that still need a push.
#[derive(Clone, Debug)]
pub struct NotificationTask {
    /// Identities of the users that are to receive this notification.
    pub recipients: Vec<String>,
    /// The notification payload to forward.
    pub payload: Notification,
}

/// Mathematical image of a [`NotificationTask`].
pub struct TaskView {
    pub recipients: Seq<Seq<char>>,
    pub payload: NotificationView,
}

impl View for NotificationTask {
    type V = TaskView;

    open spec fn view(&self) -> TaskView {
        TaskView { recipients: self.recipients.deep_view(), payload: self.payload@ }
    }
}

impl DeepView for NotificationTask {
    type V = TaskView;

    open spec fn deep_view(&self) -> TaskView {
        self.view()
    }
}

} // verus!
