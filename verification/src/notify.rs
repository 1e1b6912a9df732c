//! The steps of publishing one post: wait, fetch and upload the picture if
//! there is one, post, and clean up the saved picture.
use vstd::prelude::*;

verus! {

/// The file a post's picture is saved to, from the launch id.
pub open spec fn image_file_text(id: Seq<char>) -> Seq<char> {
    "./"@ + id + "-image.jpg"@
}

/// The file a post's picture is saved to: "./<launch id>-image.jpg".
pub fn image_file_path(id: &String) -> (path: String)
    ensures
        path@ == image_file_text(id@),
{
    let mut s = String::from_str("./");
    s.append(id.as_str());
    s.append("-image.jpg");
    s
}

/// Where a notification stands.
#[derive(Clone, Copy, Debug, PartialEq, Eq, Structural)]
pub enum NotifyStage {
    /// Waiting before posting; whether the post has a picture.
    Waiting(bool),
    /// Fetching the picture.
    Downloading,
    /// Writing the picture to its file.
    Saving,
    /// Uploading the picture to the platform.
    Uploading,
    /// The post was sent, with the picture or not.
    Posted(bool),
    /// Deleting the picture's file.
    Removing,
    Done,
}

/// The outcome of the last action.
#[derive(Clone, Copy, Debug, PartialEq, Eq, Structural)]
pub enum NotifyEvent {
    Waited,
    /// Whether the picture was fetched (request sent, success status, body read).
    Downloaded(bool),
    /// Whether the picture's file was created and written.
    Saved(bool),
    /// Whether the platform accepted the picture.
    Uploaded(bool),
    /// The post was sent; its outcome is only logged.
    PostSent,
    /// The file was deleted, or deleting it failed (which is only logged).
    FileRemoved,
}

/// The next thing to do.
#[derive(Clone, Copy, Debug, PartialEq, Eq, Structural)]
pub enum NotifyAction {
    /// Pause for ten seconds.
    Wait,
    Download,
    Save,
    Upload,
    /// Post the text alone.
    PostText,
    /// Post the text with the uploaded picture.
    PostWithPicture,
    /// Delete the picture's file.
    RemoveImageFile,
    Finish,
}

/// One step of a notification: after the pause, the picture (if any) is
/// fetched, saved and uploaded; if any of these fails the text is posted
/// alone; the file of a picture that was posted is deleted afterwards. An
/// event that does not answer the pending action ends the notification.
pub open spec fn notify_step(stage: NotifyStage, event: NotifyEvent) -> (NotifyStage, NotifyAction) {
    match (stage, event) {
        (NotifyStage::Waiting(true), NotifyEvent::Waited) => (NotifyStage::Downloading, NotifyAction::Download),
        (NotifyStage::Waiting(false), NotifyEvent::Waited) => (NotifyStage::Posted(false), NotifyAction::PostText),
        (NotifyStage::Downloading, NotifyEvent::Downloaded(true)) => (NotifyStage::Saving, NotifyAction::Save),
        (NotifyStage::Downloading, NotifyEvent::Downloaded(false)) => (NotifyStage::Posted(false), NotifyAction::PostText),
        (NotifyStage::Saving, NotifyEvent::Saved(true)) => (NotifyStage::Uploading, NotifyAction::Upload),
        (NotifyStage::Saving, NotifyEvent::Saved(false)) => (NotifyStage::Posted(false), NotifyAction::PostText),
        (NotifyStage::Uploading, NotifyEvent::Uploaded(true)) => (NotifyStage::Posted(true), NotifyAction::PostWithPicture),
        (NotifyStage::Uploading, NotifyEvent::Uploaded(false)) => (NotifyStage::Posted(false), NotifyAction::PostText),
        (NotifyStage::Posted(true), NotifyEvent::PostSent) => (NotifyStage::Removing, NotifyAction::RemoveImageFile),
        (NotifyStage::Posted(false), NotifyEvent::PostSent) => (NotifyStage::Done, NotifyAction::Finish),
        (NotifyStage::Removing, NotifyEvent::FileRemoved) => (NotifyStage::Done, NotifyAction::Finish),
        _ => (NotifyStage::Done, NotifyAction::Finish),
    }
}

/// A notification: the caller performs each action and reports its outcome.
pub struct Notification {
    pub stage: NotifyStage,
}

impl Notification {
    /// Starts a notification, for a post with a picture or without; the
    /// first action is the pause.
    pub fn begin(has_image: bool) -> (r: (Notification, NotifyAction))
        ensures
            r.0.stage == NotifyStage::Waiting(has_image),
            r.1 == NotifyAction::Wait,
    {
        (Notification { stage: NotifyStage::Waiting(has_image) }, NotifyAction::Wait)
    }

    /// Reports the outcome of the last action and returns the next one.
    pub fn step(&mut self, event: NotifyEvent) -> (action: NotifyAction)
        ensures
            (final(self).stage, action) == notify_step(old(self).stage, event),
    {
        let (stage, action) = match (self.stage, event) {
            (NotifyStage::Waiting(true), NotifyEvent::Waited) => (NotifyStage::Downloading, NotifyAction::Download),
            (NotifyStage::Waiting(false), NotifyEvent::Waited) => (NotifyStage::Posted(false), NotifyAction::PostText),
            (NotifyStage::Downloading, NotifyEvent::Downloaded(true)) => (NotifyStage::Saving, NotifyAction::Save),
            (NotifyStage::Downloading, NotifyEvent::Downloaded(false)) => (NotifyStage::Posted(false), NotifyAction::PostText),
            (NotifyStage::Saving, NotifyEvent::Saved(true)) => (NotifyStage::Uploading, NotifyAction::Upload),
            (NotifyStage::Saving, NotifyEvent::Saved(false)) => (NotifyStage::Posted(false), NotifyAction::PostText),
            (NotifyStage::Uploading, NotifyEvent::Uploaded(true)) => (NotifyStage::Posted(true), NotifyAction::PostWithPicture),
            (NotifyStage::Uploading, NotifyEvent::Uploaded(false)) => (NotifyStage::Posted(false), NotifyAction::PostText),
            (NotifyStage::Posted(true), NotifyEvent::PostSent) => (NotifyStage::Removing, NotifyAction::RemoveImageFile),
            (NotifyStage::Posted(false), NotifyEvent::PostSent) => (NotifyStage::Done, NotifyAction::Finish),
            (NotifyStage::Removing, NotifyEvent::FileRemoved) => (NotifyStage::Done, NotifyAction::Finish),
            _ => (NotifyStage::Done, NotifyAction::Finish),
        };
        self.stage = stage;
        action
    }
}

/// The actions a notification takes from `stage` when the events come in.
pub open spec fn notify_run(stage: NotifyStage, events: Seq<NotifyEvent>) -> Seq<NotifyAction>
    decreases events.len(),
{
    if events.len() == 0 {
        Seq::empty()
    } else {
        let (next, action) = notify_step(stage, events[0]);
        seq![action] + notify_run(next, events.drop_first())
    }
}

pub open spec fn is_post(a: NotifyAction) -> bool {
    a == NotifyAction::PostText || a == NotifyAction::PostWithPicture
}

/// The number of posts among actions.
pub open spec fn post_count(actions: Seq<NotifyAction>) -> nat
    decreases actions.len(),
{
    if actions.len() == 0 {
        0
    } else {
        (if is_post(actions[0]) { 1nat } else { 0nat }) + post_count(actions.drop_first())
    }
}

/// A stage before the post was sent.
pub open spec fn before_post(stage: NotifyStage) -> bool {
    stage is Waiting || stage is Downloading || stage is Saving || stage is Uploading
}

proof fn lemma_post_count_run(stage: NotifyStage, events: Seq<NotifyEvent>)
    ensures
        post_count(notify_run(stage, events)) <= (if before_post(stage) { 1nat } else { 0nat }),
    decreases events.len(),
{
    if events.len() > 0 {
        let (next, action) = notify_step(stage, events[0]);
        lemma_post_count_run(next, events.drop_first());
        let actions = notify_run(stage, events);
        assert(actions.drop_first() == notify_run(next, events.drop_first()));
    }
}

/// Whatever happens to the picture, a notification posts at most once, and
/// the picture's file is deleted only right after a post with the picture.
pub proof fn lemma_notification_posts_once(has_image: bool, events: Seq<NotifyEvent>)
    ensures
        post_count(notify_run(NotifyStage::Waiting(has_image), events)) <= 1,
        forall|stage: NotifyStage, event: NotifyEvent|
            #[trigger] notify_step(stage, event).1 == NotifyAction::RemoveImageFile ==> stage == NotifyStage::Posted(true),
{
    lemma_post_count_run(NotifyStage::Waiting(has_image), events);
}

/// The picture goes out only when it was fetched, saved and uploaded: a
/// post with the picture follows exactly a successful upload; the text is
/// posted alone for a post without a picture and right after any failure to
/// fetch, save or upload the picture; each step of handling the picture
/// follows exactly the success of the one before. With every step
/// succeeding, a post with a picture goes: pause, fetch, save, upload, post
/// with the picture, delete the file; one without: pause, post the text.
pub proof fn lemma_notification_picture(has_image: bool)
    ensures
        forall|stage: NotifyStage, event: NotifyEvent| #[trigger] notify_step(stage, event).1 == NotifyAction::PostWithPicture
            <==> (stage == NotifyStage::Uploading && event == NotifyEvent::Uploaded(true)),
        forall|stage: NotifyStage, event: NotifyEvent| #[trigger] notify_step(stage, event).1 == NotifyAction::PostText
            <==> ((stage == NotifyStage::Waiting(false) && event == NotifyEvent::Waited)
                || (stage == NotifyStage::Downloading && event == NotifyEvent::Downloaded(false))
                || (stage == NotifyStage::Saving && event == NotifyEvent::Saved(false))
                || (stage == NotifyStage::Uploading && event == NotifyEvent::Uploaded(false))),
        forall|stage: NotifyStage, event: NotifyEvent| #[trigger] notify_step(stage, event).1 == NotifyAction::Download
            <==> (stage == NotifyStage::Waiting(true) && event == NotifyEvent::Waited),
        forall|stage: NotifyStage, event: NotifyEvent| #[trigger] notify_step(stage, event).1 == NotifyAction::Save
            <==> (stage == NotifyStage::Downloading && event == NotifyEvent::Downloaded(true)),
        forall|stage: NotifyStage, event: NotifyEvent| #[trigger] notify_step(stage, event).1 == NotifyAction::Upload
            <==> (stage == NotifyStage::Saving && event == NotifyEvent::Saved(true)),
        has_image ==> notify_run(NotifyStage::Waiting(has_image), seq![NotifyEvent::Waited, NotifyEvent::Downloaded(true),
            NotifyEvent::Saved(true), NotifyEvent::Uploaded(true), NotifyEvent::PostSent, NotifyEvent::FileRemoved])
            == seq![NotifyAction::Download, NotifyAction::Save, NotifyAction::Upload, NotifyAction::PostWithPicture,
            NotifyAction::RemoveImageFile, NotifyAction::Finish],
        !has_image ==> notify_run(NotifyStage::Waiting(has_image), seq![NotifyEvent::Waited, NotifyEvent::PostSent])
            == seq![NotifyAction::PostText, NotifyAction::Finish],
{
    reveal_with_fuel(notify_run, 7);
}

} // verus!
