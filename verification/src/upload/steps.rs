//! The order of an upload's steps: from each step's outcome to the next
//! command, until the upload returns.

use vstd::prelude::*;

use crate::target::Target;
use crate::upload::notice::Notice;
use crate::upload::{
    choose_strategy, interpret_reply, missing_fields, preview_of, strategy_for, texts, validate,
    Preview, Reply, Strategy, UploadError,
};

verus! {

/// Where an upload stands: what it has asked for and waits to hear of.
#[derive(Debug)]
pub enum Stage {
    /// The site's namespace is being looked up or created.
    EnsuringNamespace,
    /// The local directory is being compared with the namespace.
    Syncing,
    /// Changed files are being uploaded; `stale` says whether the
    /// comparison found remote entries to delete.
    UploadingFiles { stale: bool },
    /// The script has been sent under `strategy`.
    Posting { strategy: Strategy, stale: bool },
    /// The upload was accepted as `preview`, and stale entries are being
    /// deleted.
    Deleting { preview: Preview },
    /// The upload has returned. Nothing follows.
    Finished,
}

/// What the caller reports back after carrying out a command.
#[derive(Debug)]
pub enum Report {
    NamespaceReady,
    /// The comparison is done; `stale` says whether there are remote
    /// entries to delete.
    Synced { stale: bool },
    FilesUploaded,
    /// The endpoint answered the request.
    Replied(Reply),
    Deleted,
    /// The command could not be carried out.
    Failed { message: String },
}

/// What the caller is to do next.
#[derive(Debug)]
pub enum Command {
    EnsureNamespace,
    Sync,
    UploadFiles,
    /// Send the script to the endpoint of `strategy`: with the asset
    /// manifest for a site, without the namespace bindings where there is
    /// no authentication.
    Post { strategy: Strategy },
    DeleteStale,
    /// Stop, with the preview's identifier or the error.
    Return(Result<String, UploadError>),
}

/// One step of an upload: what to tell the user, then what to do.
#[derive(Debug)]
pub struct Step {
    pub notices: Vec<Notice>,
    pub command: Command,
}

/// An upload in progress.
#[derive(Debug)]
pub struct Upload {
    pub stage: Stage,
    pub verbose: bool,
}

/// `notice` once where `wanted` holds, else nothing.
pub open spec fn notice_if(wanted: bool, notice: Notice) -> Seq<Notice> {
    if wanted {
        seq![notice]
    } else {
        Seq::empty()
    }
}

/// The first stage and command of an upload under the chosen strategy, or
/// the refusal as the only command.
pub open spec fn opening(choice: Result<Strategy, UploadError>) -> (Stage, Command) {
    match choice {
        Ok(Strategy::SiteSync) => (Stage::EnsuringNamespace, Command::EnsureNamespace),
        Ok(strategy) => (Stage::Posting { strategy, stale: false }, Command::Post { strategy }),
        Err(e) => (Stage::Finished, Command::Return(Err(e))),
    }
}

/// What the user is told before the first command: that credentials are
/// absent, or that fields are missing and the upload falls back; and, where
/// the script is then sent without authentication, that its namespace
/// bindings are left out.
pub open spec fn opening_notices(
    has_credentials: bool,
    complete: bool,
    sites_preview: bool,
    has_kv_namespaces: bool,
) -> Seq<Notice> {
    if has_credentials && complete {
        Seq::empty()
    } else {
        (if has_credentials {
            seq![Notice::MissingFields, Notice::FallingBack]
        } else {
            seq![Notice::NoCredentials, Notice::RunningUnauthenticated]
        }) + notice_if(!sites_preview && has_kv_namespaces, Notice::KvNamespacesUnsupported)
    }
}

/// The stage, notices and command that follow `report` in `stage`.
///
/// A failed command ends the upload with its message. An accepted reply
/// ends it with the preview's identifier, unless a site has stale entries:
/// then they are deleted first. A report that the stage does not wait for
/// ends the upload as out of order, and so does any report once the upload
/// is finished.
pub open spec fn next(stage: Stage, verbose: bool, report: Report) -> (Stage, Seq<Notice>, Command) {
    match (stage, report) {
        (Stage::Finished, _) => (
            Stage::Finished,
            Seq::empty(),
            Command::Return(Err(UploadError::OutOfOrder)),
        ),
        (_, Report::Failed { message }) => (
            Stage::Finished,
            Seq::empty(),
            Command::Return(Err(UploadError::Collaborator { message })),
        ),
        (Stage::EnsuringNamespace, Report::NamespaceReady) => (
            Stage::Syncing,
            Seq::empty(),
            Command::Sync,
        ),
        (Stage::Syncing, Report::Synced { stale }) => (
            Stage::UploadingFiles { stale },
            notice_if(verbose, Notice::UploadingFiles),
            Command::UploadFiles,
        ),
        (Stage::UploadingFiles { stale }, Report::FilesUploaded) => (
            Stage::Posting { strategy: Strategy::SiteSync, stale },
            Seq::empty(),
            Command::Post { strategy: Strategy::SiteSync },
        ),
        (Stage::Posting { strategy, stale }, Report::Replied(reply)) => match preview_of(
            strategy != Strategy::Unauthenticated,
            reply,
        ) {
            Ok(preview) => if strategy == Strategy::SiteSync && stale {
                (
                    Stage::Deleting { preview },
                    notice_if(verbose, Notice::DeletingStale),
                    Command::DeleteStale,
                )
            } else {
                (Stage::Finished, Seq::empty(), Command::Return(Ok(preview.id)))
            },
            Err(e) => (Stage::Finished, Seq::empty(), Command::Return(Err(e))),
        },
        (Stage::Deleting { preview }, Report::Deleted) => (
            Stage::Finished,
            Seq::empty(),
            Command::Return(Ok(preview.id)),
        ),
        _ => (Stage::Finished, Seq::empty(), Command::Return(Err(UploadError::OutOfOrder))),
    }
}

/// The notices for a step that has at most one.
fn one_notice(wanted: bool, notice: Notice) -> (notices: Vec<Notice>)
    ensures
        notices@ == notice_if(wanted, notice),
{
    let mut notices: Vec<Notice> = Vec::new();
    if wanted {
        notices.push(notice);
    }
    assert(notices@ =~= notice_if(wanted, notice));
    notices
}

/// The last step of an upload.
fn finish(verbose: bool, result: Result<String, UploadError>) -> (r: (Upload, Step))
    ensures
        r.0.stage == Stage::Finished,
        r.0.verbose == verbose,
        r.1.notices@ == Seq::<Notice>::empty(),
        r.1.command == Command::Return(result),
{
    (
        Upload { stage: Stage::Finished, verbose },
        Step { notices: Vec::new(), command: Command::Return(result) },
    )
}

impl Upload {
    /// Starts an upload of `target`: chooses the strategy from whether
    /// credentials are at hand, whether the target is complete and whether
    /// it has a site, and gives the first step.
    ///
    /// Where a site is to be previewed and the upload cannot be
    /// authenticated, the first step returns the refusal, and no other
    /// command is ever given.
    pub fn begin(target: &Target, has_credentials: bool, sites_preview: bool, verbose: bool) -> (r:
        (Upload, Step))
        ensures
            (r.0.stage, r.1.command) == opening(
                strategy_for(
                    has_credentials,
                    missing_fields(*target).len() == 0,
                    sites_preview,
                    target.site is Some,
                ),
            ),
            r.0.verbose == verbose,
            r.1.notices@ == opening_notices(
                has_credentials,
                missing_fields(*target).len() == 0,
                sites_preview,
                target.kv_namespaces is Some,
            ),
    {
        let missing = validate(target);
        let complete = missing.len() == 0;
        assert(texts(missing@).len() == missing@.len());
        let mut notices: Vec<Notice> = Vec::new();
        if !(has_credentials && complete) {
            if has_credentials {
                notices.push(Notice::MissingFields);
                notices.push(Notice::FallingBack);
            } else {
                notices.push(Notice::NoCredentials);
                notices.push(Notice::RunningUnauthenticated);
            }
            if !sites_preview && target.kv_namespaces.is_some() {
                notices.push(Notice::KvNamespacesUnsupported);
            }
        }
        assert(notices@ =~= opening_notices(
            has_credentials,
            complete,
            sites_preview,
            target.kv_namespaces is Some,
        ));
        let (stage, command) = match choose_strategy(
            has_credentials,
            complete,
            sites_preview,
            target.site.is_some(),
        ) {
            Ok(Strategy::SiteSync) => (Stage::EnsuringNamespace, Command::EnsureNamespace),
            Ok(strategy) => (Stage::Posting { strategy, stale: false }, Command::Post { strategy }),
            Err(e) => (Stage::Finished, Command::Return(Err(e))),
        };
        (Upload { stage, verbose }, Step { notices, command })
    }

    /// Takes the outcome of the last command and gives the next step.
    pub fn advance(self, report: Report) -> (r: (Upload, Step))
        ensures
            (r.0.stage, r.1.notices@, r.1.command) == next(self.stage, self.verbose, report),
            r.0.verbose == self.verbose,
    {
        let verbose = self.verbose;
        match (self.stage, report) {
            (Stage::Finished, _) => finish(verbose, Err(UploadError::OutOfOrder)),
            (_, Report::Failed { message }) => finish(
                verbose,
                Err(UploadError::Collaborator { message }),
            ),
            (Stage::EnsuringNamespace, Report::NamespaceReady) => (
                Upload { stage: Stage::Syncing, verbose },
                Step { notices: Vec::new(), command: Command::Sync },
            ),
            (Stage::Syncing, Report::Synced { stale }) => (
                Upload { stage: Stage::UploadingFiles { stale }, verbose },
                Step {
                    notices: one_notice(verbose, Notice::UploadingFiles),
                    command: Command::UploadFiles,
                },
            ),
            (Stage::UploadingFiles { stale }, Report::FilesUploaded) => (
                Upload { stage: Stage::Posting { strategy: Strategy::SiteSync, stale }, verbose },
                Step { notices: Vec::new(), command: Command::Post { strategy: Strategy::SiteSync } },
            ),
            (Stage::Posting { strategy, stale }, Report::Replied(reply)) => {
                let authenticated = match strategy {
                    Strategy::Unauthenticated => false,
                    _ => true,
                };
                let site = match strategy {
                    Strategy::SiteSync => true,
                    _ => false,
                };
                match interpret_reply(authenticated, reply) {
                    Ok(preview) => {
                        if site && stale {
                            (
                                Upload { stage: Stage::Deleting { preview }, verbose },
                                Step {
                                    notices: one_notice(verbose, Notice::DeletingStale),
                                    command: Command::DeleteStale,
                                },
                            )
                        } else {
                            finish(verbose, Ok(preview.id))
                        }
                    },
                    Err(e) => finish(verbose, Err(e)),
                }
            },
            (Stage::Deleting { preview }, Report::Deleted) => finish(verbose, Ok(preview.id)),
            _ => finish(verbose, Err(UploadError::OutOfOrder)),
        }
    }
}

/// The commands given in answer to `reports`, one for each, starting in
/// `stage`.
pub open spec fn replies(stage: Stage, verbose: bool, reports: Seq<Report>) -> Seq<Command>
    decreases reports.len(),
{
    if reports.len() == 0 {
        Seq::empty()
    } else {
        let (then, _, command) = next(stage, verbose, reports[0]);
        seq![command] + replies(then, verbose, reports.drop_first())
    }
}

/// A stage that waits for a reply was entered by sending the script under
/// the stage's strategy.
pub open spec fn answers(stage: Stage, last: Command) -> bool {
    stage matches Stage::Posting { strategy, .. } ==> last == (Command::Post { strategy })
}

/// A stage that holds a preview holds one with a non-empty identifier.
pub open spec fn named(stage: Stage) -> bool {
    stage matches Stage::Deleting { preview } ==> preview.id@.len() > 0
}

/// Once an upload is finished, every further report is answered by a
/// return: no call is asked for.
pub proof fn lemma_finished_asks_for_nothing(verbose: bool, reports: Seq<Report>, k: int)
    requires
        0 <= k < reports.len(),
    ensures
        replies(Stage::Finished, verbose, reports).len() == reports.len(),
        replies(Stage::Finished, verbose, reports)[k] == Command::Return(
            Err(UploadError::OutOfOrder),
        ),
    decreases reports.len(),
{
    lemma_replies_len(Stage::Finished, verbose, reports);
    if k > 0 {
        lemma_finished_asks_for_nothing(verbose, reports.drop_first(), k - 1);
    }
}

proof fn lemma_replies_len(stage: Stage, verbose: bool, reports: Seq<Report>)
    ensures
        replies(stage, verbose, reports).len() == reports.len(),
    decreases reports.len(),
{
    if reports.len() > 0 {
        lemma_replies_len(next(stage, verbose, reports[0]).0, verbose, reports.drop_first());
    }
}

/// Where a site is to be previewed without credentials, or with an
/// incomplete target, the upload's first command returns the refusal, and
/// whatever is reported afterwards, no call is ever asked for.
pub proof fn lemma_site_preview_without_authentication_sends_nothing(
    has_credentials: bool,
    complete: bool,
    has_site: bool,
    verbose: bool,
    reports: Seq<Report>,
    k: int,
)
    requires
        !has_credentials || !complete,
        0 <= k < reports.len(),
    ensures
        ({
            let (stage, first) = opening(strategy_for(has_credentials, complete, true, has_site));
            &&& first == Command::Return(Err(UploadError::SitesNeedAuthentication))
            &&& replies(stage, verbose, reports)[k] is Return
        }),
{
    lemma_finished_asks_for_nothing(verbose, reports, k);
}

/// From any stage that fits the command given last: where the command in
/// answer to the `k`-th report is to delete, that report is an accepted
/// reply, and the command before it sent the script with the site's
/// manifest.
proof fn lemma_delete_follows_post(
    stage: Stage,
    last: Command,
    verbose: bool,
    reports: Seq<Report>,
    k: int,
)
    requires
        answers(stage, last),
        0 <= k < reports.len(),
        replies(stage, verbose, reports)[k] is DeleteStale,
    ensures
        reports[k] matches Report::Replied(reply) && preview_of(true, reply) is Ok,
        (if k == 0 {
            last
        } else {
            replies(stage, verbose, reports)[k - 1]
        }) == (Command::Post { strategy: Strategy::SiteSync }),
    decreases reports.len(),
{
    let (then, _, command) = next(stage, verbose, reports[0]);
    let rest = reports.drop_first();
    lemma_replies_len(then, verbose, rest);
    if k > 0 {
        assert(replies(stage, verbose, reports)[k] == replies(then, verbose, rest)[k - 1]);
        lemma_delete_follows_post(then, command, verbose, rest, k - 1);
        if k > 1 {
            assert(replies(stage, verbose, reports)[k - 1] == replies(then, verbose, rest)[k - 2]);
        }
    }
}

/// Stale entries are deleted only after the site's upload was accepted.
/// In every upload, whatever strategy it began with and whatever is
/// reported: where the command in answer to the `k`-th report is to delete,
/// that report is an accepted reply, and the command before it sent the
/// script with the site's manifest.
pub proof fn lemma_delete_only_after_accepted_upload(
    choice: Result<Strategy, UploadError>,
    verbose: bool,
    reports: Seq<Report>,
    k: int,
)
    requires
        0 <= k < reports.len(),
        replies(opening(choice).0, verbose, reports)[k] is DeleteStale,
    ensures
        replies(opening(choice).0, verbose, reports).len() == reports.len(),
        reports[k] matches Report::Replied(reply) && preview_of(true, reply) is Ok,
        (if k == 0 {
            opening(choice).1
        } else {
            replies(opening(choice).0, verbose, reports)[k - 1]
        }) == (Command::Post { strategy: Strategy::SiteSync }),
{
    lemma_replies_len(opening(choice).0, verbose, reports);
    lemma_delete_follows_post(opening(choice).0, opening(choice).1, verbose, reports, k);
}

proof fn lemma_returns_named(stage: Stage, verbose: bool, reports: Seq<Report>, k: int)
    requires
        named(stage),
        0 <= k < reports.len(),
    ensures
        replies(stage, verbose, reports)[k] matches Command::Return(Ok(id)) ==> id@.len() > 0,
    decreases reports.len(),
{
    let then = next(stage, verbose, reports[0]).0;
    let rest = reports.drop_first();
    lemma_replies_len(then, verbose, rest);
    if k > 0 {
        assert(replies(stage, verbose, reports)[k] == replies(then, verbose, rest)[k - 1]);
        lemma_returns_named(then, verbose, rest, k - 1);
    }
}

/// An upload that succeeds returns a non-empty identifier, whatever
/// strategy it began with and whatever is reported.
pub proof fn lemma_returned_identifier_is_not_empty(
    choice: Result<Strategy, UploadError>,
    verbose: bool,
    reports: Seq<Report>,
    k: int,
)
    requires
        0 <= k < reports.len(),
    ensures
        !(opening(choice).1 matches Command::Return(Ok(_))),
        replies(opening(choice).0, verbose, reports)[k] matches Command::Return(Ok(id))
            ==> id@.len() > 0,
{
    lemma_returns_named(opening(choice).0, verbose, reports, k);
}

} // verus!
