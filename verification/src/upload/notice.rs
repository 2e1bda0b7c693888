//! What the user is told in the course of an upload.

use vstd::prelude::*;

use crate::target::Target;
use crate::upload::{missing_fields, texts, validate};

verus! {

/// What the user is told on the way.
#[derive(Clone, Copy, Debug, PartialEq, Eq, Structural)]
pub enum Notice {
    NoCredentials,
    RunningUnauthenticated,
    MissingFields,
    FallingBack,
    KvNamespacesUnsupported,
    UploadingFiles,
    DeletingStale,
}

/// How a notice is shown.
#[derive(Clone, Copy, Debug, PartialEq, Eq, Structural)]
pub enum Level {
    Info,
    Warn,
    Billboard,
}

/// A token between double quotes.
pub open spec fn quoted(token: Seq<char>) -> Seq<char> {
    "\""@ + token + "\""@
}

/// The tokens, each quoted, with a comma and a space between two.
pub open spec fn joined(tokens: Seq<Seq<char>>) -> Seq<char>
    decreases tokens.len(),
{
    if tokens.len() == 0 {
        Seq::empty()
    } else if tokens.len() == 1 {
        quoted(tokens[0])
    } else {
        joined(tokens.drop_last()) + ", "@ + quoted(tokens.last())
    }
}

/// The tokens as a list in square brackets.
pub open spec fn list_text(tokens: Seq<Seq<char>>) -> Seq<char> {
    "["@ + joined(tokens) + "]"@
}

/// How each notice is shown.
pub open spec fn level_of(notice: Notice) -> Level {
    match notice {
        Notice::NoCredentials => Level::Billboard,
        Notice::RunningUnauthenticated => Level::Info,
        Notice::MissingFields => Level::Warn,
        Notice::FallingBack => Level::Warn,
        Notice::KvNamespacesUnsupported => Level::Warn,
        Notice::UploadingFiles => Level::Info,
        Notice::DeletingStale => Level::Info,
    }
}

/// What each notice says; the notice of missing fields lists `missing`.
pub open spec fn notice_text(notice: Notice, missing: Seq<Seq<char>>) -> Seq<char> {
    match notice {
        Notice::NoCredentials =>
            "You have not provided your Cloudflare credentials.\n\nPlease run `wrangler config` or visit\nhttps://developers.cloudflare.com/workers/tooling/wrangler/configuration/#using-environment-variables\nfor info on authenticating with environment variables."@,
        Notice::RunningUnauthenticated => "Running preview without authentication."@,
        Notice::MissingFields => "Your wrangler.toml is missing the following fields: "@
            + list_text(missing),
        Notice::FallingBack => "Falling back to unauthenticated preview."@,
        Notice::KvNamespacesUnsupported =>
            "KV Namespaces are not supported in preview without setting API credentials and account_id"@,
        Notice::UploadingFiles => "Uploading updated files..."@,
        Notice::DeletingStale => "Deleting stale files..."@,
    }
}

/// Writes tokens as a list in square brackets, each in double quotes.
pub fn list_tokens(tokens: &Vec<&'static str>) -> (r: String)
    ensures
        r@ == list_text(texts(tokens@)),
{
    let mut r = String::from_str("[");
    let n = tokens.len();
    let mut i: usize = 0;
    let ghost all = texts(tokens@);
    proof {
        assert(all.take(0) =~= Seq::<Seq<char>>::empty());
        assert(r@ =~= "["@ + joined(all.take(0)));
    }
    while i < n
        invariant
            i <= n,
            n == tokens@.len(),
            all == texts(tokens@),
            r@ == "["@ + joined(all.take(i as int)),
        decreases n - i,
    {
        let ghost before = r@;
        if i > 0 {
            r.append(", ");
        }
        r.append("\"");
        r.append(tokens[i]);
        r.append("\"");
        proof {
            let next = all.take(i + 1);
            assert(next.drop_last() =~= all.take(i as int));
            assert(next.last() == tokens@[i as int]@);
            if i == 0 {
                assert(joined(all.take(0)) =~= Seq::<char>::empty());
                assert(r@ =~= "["@ + quoted(next[0]));
            } else {
                assert(r@ =~= before + ", "@ + quoted(next.last()));
                assert(r@ =~= "["@ + (joined(next.drop_last()) + ", "@ + quoted(next.last())));
            }
        }
        i += 1;
    }
    proof {
        assert(all.take(n as int) =~= all);
    }
    r.append("]");
    r
}

impl Notice {
    /// How this notice is shown.
    pub fn level(self) -> (level: Level)
        ensures
            level == level_of(self),
    {
        match self {
            Notice::NoCredentials => Level::Billboard,
            Notice::RunningUnauthenticated => Level::Info,
            Notice::MissingFields => Level::Warn,
            Notice::FallingBack => Level::Warn,
            Notice::KvNamespacesUnsupported => Level::Warn,
            Notice::UploadingFiles => Level::Info,
            Notice::DeletingStale => Level::Info,
        }
    }

    /// What this notice says of an upload of `target`.
    pub fn text(self, target: &Target) -> (r: String)
        ensures
            r@ == notice_text(self, missing_fields(*target)),
    {
        match self {
            Notice::NoCredentials => String::from_str(
                "You have not provided your Cloudflare credentials.\n\nPlease run `wrangler config` or visit\nhttps://developers.cloudflare.com/workers/tooling/wrangler/configuration/#using-environment-variables\nfor info on authenticating with environment variables.",
            ),
            Notice::RunningUnauthenticated => String::from_str(
                "Running preview without authentication.",
            ),
            Notice::MissingFields => {
                let missing = validate(target);
                let list = list_tokens(&missing);
                let mut r = String::from_str(
                    "Your wrangler.toml is missing the following fields: ",
                );
                r.append(list.as_str());
                r
            },
            Notice::FallingBack => String::from_str("Falling back to unauthenticated preview."),
            Notice::KvNamespacesUnsupported => String::from_str(
                "KV Namespaces are not supported in preview without setting API credentials and account_id",
            ),
            Notice::UploadingFiles => String::from_str("Uploading updated files..."),
            Notice::DeletingStale => String::from_str("Deleting stale files..."),
        }
    }
}

} // verus!
