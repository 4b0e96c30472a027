//! The decisions of the installation helpers, which alternate calls of butlerd with
//! steps that depend on their answers. The caller performs each action and hands back
//! what came of it.
use vstd::prelude::*;

use crate::error::ErrorKind;
use crate::responses::{DownloadReason, QueueResponse};

verus! {

/// Where an installation stands.
#[derive(Debug)]
pub enum InstallState {
    /// Nothing has been done yet.
    Start,
    /// The installation was asked to be queued.
    AwaitQueue,
    /// The download was asked to be queued; `id` and `staging` come from the queue's answer.
    AwaitDownloadQueue { id: String, staging: String },
    /// The downloads are being driven.
    AwaitDrive { id: String, staging: String },
    /// The installation was asked to be performed.
    AwaitPerform,
    /// The installation is over.
    Finished,
}

/// What came of the last action.
#[derive(Debug)]
pub enum InstallEvent {
    /// The installation is to begin.
    Begin,
    /// The answer to queueing the installation.
    Queued(Result<QueueResponse, ErrorKind>),
    /// The outcome of queueing the download, of driving the downloads, or of performing
    /// the installation.
    Done(Result<(), ErrorKind>),
}

/// What the caller is to do next.
#[derive(Debug)]
pub enum InstallAction {
    /// Queue the installation for this reason (`install_queue`).
    QueueInstall(DownloadReason),
    /// Queue the download of this queued installation (`download_queue`).
    QueueDownload(QueueResponse),
    /// Download everything queued (`downloads_drive`).
    DriveDownloads,
    /// Perform the installation with this queue id and staging folder (`install_perform`).
    PerformInstall { id: String, staging: String },
    /// Stop, with this outcome.
    Finish(Result<(), ErrorKind>),
}

/// Whether `event` can come in `state`: `Begin` at the start, the queue's answer after
/// queueing, an outcome after the other steps.
pub open spec fn install_event_fits(state: InstallState, event: InstallEvent) -> bool {
    match state {
        InstallState::Start => event is Begin,
        InstallState::AwaitQueue => event is Queued,
        InstallState::AwaitDownloadQueue { .. } => event is Done,
        InstallState::AwaitDrive { .. } => event is Done,
        InstallState::AwaitPerform => event is Done,
        InstallState::Finished => false,
    }
}

/// The next state and action of an installation.
pub open spec fn install_next(state: InstallState, event: InstallEvent) -> (InstallState, InstallAction) {
    match state {
        InstallState::Start => (InstallState::AwaitQueue, InstallAction::QueueInstall(DownloadReason::Install)),
        InstallState::AwaitQueue => match event {
            InstallEvent::Queued(Ok(q)) => (
                InstallState::AwaitDownloadQueue { id: q.id, staging: q.staging_folder },
                InstallAction::QueueDownload(q),
            ),
            InstallEvent::Queued(Err(e)) => (InstallState::Finished, InstallAction::Finish(Err(e))),
            _ => (InstallState::Finished, InstallAction::Finish(Ok(()))),
        },
        InstallState::AwaitDownloadQueue { id, staging } => match event {
            InstallEvent::Done(Ok(())) => (InstallState::AwaitDrive { id, staging }, InstallAction::DriveDownloads),
            InstallEvent::Done(Err(e)) => (InstallState::Finished, InstallAction::Finish(Err(e))),
            _ => (InstallState::Finished, InstallAction::Finish(Ok(()))),
        },
        InstallState::AwaitDrive { id, staging } => match event {
            InstallEvent::Done(Ok(())) => (InstallState::AwaitPerform, InstallAction::PerformInstall { id, staging }),
            InstallEvent::Done(Err(e)) => (InstallState::Finished, InstallAction::Finish(Err(e))),
            _ => (InstallState::Finished, InstallAction::Finish(Ok(()))),
        },
        InstallState::AwaitPerform => match event {
            InstallEvent::Done(outcome) => (InstallState::Finished, InstallAction::Finish(outcome)),
            _ => (InstallState::Finished, InstallAction::Finish(Ok(()))),
        },
        InstallState::Finished => (InstallState::Finished, InstallAction::Finish(Ok(()))),
    }
}

/// The next state and action of an installation: queue it, queue its download, drive
/// the downloads, perform it with the id and staging folder of the queue's answer, and
/// finish; the first failure finishes it with that failure.
pub fn install_step(state: InstallState, event: InstallEvent) -> (r: (InstallState, InstallAction))
    requires
        install_event_fits(state, event),
    ensures
        r == install_next(state, event),
        state is Start ==> r.0 is AwaitQueue && r.1 == InstallAction::QueueInstall(DownloadReason::Install),
        state is AwaitQueue ==> match event {
            InstallEvent::Queued(Ok(q)) => r.0 == (InstallState::AwaitDownloadQueue {
                id: q.id,
                staging: q.staging_folder,
            }) && r.1 == InstallAction::QueueDownload(q),
            InstallEvent::Queued(Err(e)) => r.0 is Finished && r.1 == InstallAction::Finish(Err(e)),
            _ => false,
        },
        state matches InstallState::AwaitDownloadQueue { id, staging } ==> match event {
            InstallEvent::Done(Ok(())) => r.0 == (InstallState::AwaitDrive { id, staging })
                && r.1 is DriveDownloads,
            InstallEvent::Done(Err(e)) => r.0 is Finished && r.1 == InstallAction::Finish(Err(e)),
            _ => false,
        },
        state matches InstallState::AwaitDrive { id, staging } ==> match event {
            InstallEvent::Done(Ok(())) => r.0 is AwaitPerform && r.1 == (InstallAction::PerformInstall {
                id,
                staging,
            }),
            InstallEvent::Done(Err(e)) => r.0 is Finished && r.1 == InstallAction::Finish(Err(e)),
            _ => false,
        },
        state is AwaitPerform ==> match event {
            InstallEvent::Done(outcome) => r.0 is Finished && r.1 == InstallAction::Finish(outcome),
            _ => false,
        },
{
    match state {
        InstallState::Start => (InstallState::AwaitQueue, InstallAction::QueueInstall(DownloadReason::Install)),
        InstallState::AwaitQueue => match event {
            InstallEvent::Queued(Ok(q)) => {
                let id = q.id.clone();
                let staging = q.staging_folder.clone();
                (InstallState::AwaitDownloadQueue { id, staging }, InstallAction::QueueDownload(q))
            },
            InstallEvent::Queued(Err(e)) => (InstallState::Finished, InstallAction::Finish(Err(e))),
            _ => (InstallState::Finished, InstallAction::Finish(Ok(()))),
        },
        InstallState::AwaitDownloadQueue { id, staging } => match event {
            InstallEvent::Done(Ok(())) => (
                InstallState::AwaitDrive { id, staging },
                InstallAction::DriveDownloads,
            ),
            InstallEvent::Done(Err(e)) => (InstallState::Finished, InstallAction::Finish(Err(e))),
            _ => (InstallState::Finished, InstallAction::Finish(Ok(()))),
        },
        InstallState::AwaitDrive { id, staging } => match event {
            InstallEvent::Done(Ok(())) => (
                InstallState::AwaitPerform,
                InstallAction::PerformInstall { id, staging },
            ),
            InstallEvent::Done(Err(e)) => (InstallState::Finished, InstallAction::Finish(Err(e))),
            _ => (InstallState::Finished, InstallAction::Finish(Ok(()))),
        },
        InstallState::AwaitPerform => match event {
            InstallEvent::Done(outcome) => (InstallState::Finished, InstallAction::Finish(outcome)),
            _ => (InstallState::Finished, InstallAction::Finish(Ok(()))),
        },
        InstallState::Finished => (InstallState::Finished, InstallAction::Finish(Ok(()))),
    }
}

/// When every step succeeds, an installation queues itself for installing, queues its download, drives
/// the downloads, performs the installation with the id and staging folder of the queue's
/// answer, and finishes successfully.
pub proof fn lemma_install_succeeds(q: QueueResponse)
    ensures
        ({
            let s1 = install_next(InstallState::Start, InstallEvent::Begin);
            let s2 = install_next(s1.0, InstallEvent::Queued(Ok(q)));
            let s3 = install_next(s2.0, InstallEvent::Done(Ok(())));
            let s4 = install_next(s3.0, InstallEvent::Done(Ok(())));
            let s5 = install_next(s4.0, InstallEvent::Done(Ok(())));
            &&& s1.1 == InstallAction::QueueInstall(DownloadReason::Install)
            &&& s2.1 == InstallAction::QueueDownload(q)
            &&& s3.1 == InstallAction::DriveDownloads
            &&& s4.1 == (InstallAction::PerformInstall { id: q.id, staging: q.staging_folder })
            &&& s5.1 == InstallAction::Finish(Ok(()))
            &&& s5.0 == InstallState::Finished
        }),
{
}

/// A failed step finishes the installation with its failure, whichever step it was.
pub proof fn lemma_install_failure_stops(state: InstallState, event: InstallEvent, e: ErrorKind)
    requires
        install_event_fits(state, event),
        event == InstallEvent::Queued(Err(e)) || event == InstallEvent::Done(Err(e)),
    ensures
        install_next(state, event) == (InstallState::Finished, InstallAction::Finish(Err(e))),
{
}

/// Where driving the downloads stands.
#[derive(Debug, Clone, Copy, PartialEq, Eq)]
pub enum DriveState {
    /// Nothing has been done yet.
    Start,
    /// The drive was started.
    Sent,
    /// Waiting a second before the next round.
    Sleeping,
    /// The completed downloads are being cleared.
    Clearing,
    /// The download queue is being listed.
    Listing,
    /// Driving is over.
    Finished,
}

/// What came of the last action of a drive.
#[derive(Debug)]
pub enum DriveEvent {
    /// Driving is to begin.
    Begin,
    /// The drive was started, or the wait is over.
    Performed,
    /// The outcome of clearing the completed downloads.
    Cleared(Result<(), ErrorKind>),
    /// Whether listing the download queue succeeded.
    Listed(bool),
}

/// What the caller is to do next in a drive.
#[derive(Debug)]
pub enum DriveAction {
    /// Post `Downloads.Drive` without waiting for its answer.
    SendDrive,
    /// Wait this many milliseconds.
    Sleep(u64),
    /// Clear the completed downloads (`clear_completed`).
    ClearCompleted,
    /// List the download queue (`downloads_list`).
    ListDownloads,
    /// Stop, with this outcome.
    Finish(Result<(), ErrorKind>),
}

/// Whether `event` can come in `state`.
pub open spec fn drive_event_fits(state: DriveState, event: DriveEvent) -> bool {
    match state {
        DriveState::Start => event is Begin,
        DriveState::Sent => event is Performed,
        DriveState::Sleeping => event is Performed,
        DriveState::Clearing => event is Cleared,
        DriveState::Listing => event is Listed,
        DriveState::Finished => false,
    }
}

/// The next state and action of driving the downloads.
pub open spec fn drive_next(state: DriveState, event: DriveEvent) -> (DriveState, DriveAction) {
    match state {
        DriveState::Start => (DriveState::Sent, DriveAction::SendDrive),
        DriveState::Sent => (DriveState::Sleeping, DriveAction::Sleep(1000)),
        DriveState::Sleeping => (DriveState::Clearing, DriveAction::ClearCompleted),
        DriveState::Clearing => match event {
            DriveEvent::Cleared(Ok(())) => (DriveState::Listing, DriveAction::ListDownloads),
            DriveEvent::Cleared(Err(e)) => (DriveState::Finished, DriveAction::Finish(Err(e))),
            _ => (DriveState::Finished, DriveAction::Finish(Ok(()))),
        },
        DriveState::Listing => match event {
            DriveEvent::Listed(true) => (DriveState::Sleeping, DriveAction::Sleep(1000)),
            _ => (DriveState::Finished, DriveAction::Finish(Ok(()))),
        },
        DriveState::Finished => (DriveState::Finished, DriveAction::Finish(Ok(()))),
    }
}

/// The next state and action of driving the downloads: start the drive, then in rounds
/// wait a second, clear the completed downloads and list the queue, until listing the
/// queue fails, which ends the drive successfully; a failure to clear ends it with that
/// failure.
pub fn drive_step(state: DriveState, event: DriveEvent) -> (r: (DriveState, DriveAction))
    requires
        drive_event_fits(state, event),
    ensures
        r == drive_next(state, event),
        state == DriveState::Start ==> r.0 == DriveState::Sent && r.1 is SendDrive,
        state == DriveState::Sent ==> r.0 == DriveState::Sleeping && r.1 == DriveAction::Sleep(
            1000,
        ),
        state == DriveState::Sleeping ==> r.0 == DriveState::Clearing && r.1 is ClearCompleted,
        state == DriveState::Clearing ==> match event {
            DriveEvent::Cleared(Ok(())) => r.0 == DriveState::Listing && r.1 is ListDownloads,
            DriveEvent::Cleared(Err(e)) => r.0 == DriveState::Finished && r.1 == DriveAction::Finish(
                Err(e),
            ),
            _ => false,
        },
        state == DriveState::Listing ==> match event {
            DriveEvent::Listed(true) => r.0 == DriveState::Sleeping && r.1 == DriveAction::Sleep(
                1000,
            ),
            DriveEvent::Listed(false) => r.0 == DriveState::Finished && r.1 == DriveAction::Finish(
                Ok(()),
            ),
            _ => false,
        },
{
    match state {
        DriveState::Start => (DriveState::Sent, DriveAction::SendDrive),
        DriveState::Sent => (DriveState::Sleeping, DriveAction::Sleep(1000)),
        DriveState::Sleeping => (DriveState::Clearing, DriveAction::ClearCompleted),
        DriveState::Clearing => match event {
            DriveEvent::Cleared(Ok(())) => (DriveState::Listing, DriveAction::ListDownloads),
            DriveEvent::Cleared(Err(e)) => (DriveState::Finished, DriveAction::Finish(Err(e))),
            _ => (DriveState::Finished, DriveAction::Finish(Ok(()))),
        },
        DriveState::Listing => match event {
            DriveEvent::Listed(true) => (DriveState::Sleeping, DriveAction::Sleep(1000)),
            _ => (DriveState::Finished, DriveAction::Finish(Ok(()))),
        },
        DriveState::Finished => (DriveState::Finished, DriveAction::Finish(Ok(()))),
    }
}

/// A drive starts the daemon's drive and then waits a second before its first round.
pub proof fn lemma_drive_starts()
    ensures
        drive_next(DriveState::Start, DriveEvent::Begin) == (DriveState::Sent, DriveAction::SendDrive),
        drive_next(DriveState::Sent, DriveEvent::Performed) == (DriveState::Sleeping, DriveAction::Sleep(1000)),
{
}

/// A round in which clearing and listing succeed clears the completed downloads, lists
/// the queue, and comes back to waiting a second.
pub proof fn lemma_drive_round()
    ensures
        ({
            let s1 = drive_next(DriveState::Sleeping, DriveEvent::Performed);
            let s2 = drive_next(s1.0, DriveEvent::Cleared(Ok(())));
            let s3 = drive_next(s2.0, DriveEvent::Listed(true));
            &&& s1.1 is ClearCompleted
            &&& s2.1 is ListDownloads
            &&& s3 == (DriveState::Sleeping, DriveAction::Sleep(1000))
        }),
{
}

/// A drive finishes successfully exactly when listing the queue fails, and with a failure
/// exactly when clearing fails, with that failure.
pub proof fn lemma_drive_finishes(state: DriveState, event: DriveEvent)
    requires
        drive_event_fits(state, event),
    ensures
        drive_next(state, event).1 == DriveAction::Finish(Ok(())) <==> (state == DriveState::Listing
            && event == DriveEvent::Listed(false)),
        forall|e: ErrorKind| drive_next(state, event).1 == DriveAction::Finish(Err(e)) <==> (state
            == DriveState::Clearing && event == DriveEvent::Cleared(Err(e))),
{
}

} // verus!
