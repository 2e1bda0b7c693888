//! The upload of a script for preview: which fields an authenticated upload
//! needs, which strategy applies, where the script is sent, and how the two
//! shapes of reply become one result.

use vstd::prelude::*;
use vstd::std_specs::convert::FromSpecImpl;

use crate::cf::{status_code_context, status_context};
use crate::target::{KvNamespace, Target};

pub mod notice;
pub mod steps;

verus! {

/// The texts of a sequence of string slices.
pub open spec fn texts(tokens: Seq<&'static str>) -> Seq<Seq<char>> {
    Seq::new(tokens.len(), |i: int| tokens[i]@)
}

/// `token` once where `absent` holds, else nothing.
pub open spec fn token_if(absent: bool, token: Seq<char>) -> Seq<Seq<char>> {
    if absent {
        seq![token]
    } else {
        Seq::empty()
    }
}

/// The tokens for one namespace: its binding, then its id, each where it
/// is empty.
pub open spec fn missing_in_namespace(kv: KvNamespace) -> Seq<Seq<char>> {
    token_if(kv.binding@.len() == 0, "kv-namespace binding"@) + token_if(
        kv.id@.len() == 0,
        "kv-namespace id"@,
    )
}

/// The tokens for a list of namespaces, in the order of the list.
pub open spec fn missing_in_namespaces(kvs: Seq<KvNamespace>) -> Seq<Seq<char>>
    decreases kvs.len(),
{
    if kvs.len() == 0 {
        Seq::empty()
    } else {
        missing_in_namespaces(kvs.drop_last()) + missing_in_namespace(kvs.last())
    }
}

/// One token for every required field of `target` that is empty: the
/// account id, the name, then the namespaces in order.
pub open spec fn missing_fields(target: Target) -> Seq<Seq<char>> {
    token_if(target.account_id@.len() == 0, "account_id"@) + token_if(
        target.name@.len() == 0,
        "name"@,
    ) + match target.kv_namespaces {
        Some(kvs) => missing_in_namespaces(kvs@),
        None => Seq::empty(),
    }
}

/// Whether every field that an authenticated upload needs is present.
pub open spec fn complete(target: Target) -> bool {
    &&& target.account_id@.len() > 0
    &&& target.name@.len() > 0
    &&& target.kv_namespaces matches Some(kvs) ==> forall|i: int|
        0 <= i < kvs@.len() ==> (#[trigger] kvs@[i]).binding@.len() > 0 && kvs@[i].id@.len() > 0
}

/// Lists the required fields that `target` lacks. An empty list means
/// that the target can be uploaded with authentication.
pub fn validate(target: &Target) -> (missing: Vec<&'static str>)
    ensures
        texts(missing@) == missing_fields(*target),
{
    let mut missing: Vec<&'static str> = Vec::new();
    if target.account_id.as_str().is_empty() {
        missing.push("account_id");
    }
    if target.name.as_str().is_empty() {
        missing.push("name");
    }
    let ghost head = texts(missing@);
    assert(head =~= token_if(target.account_id@.len() == 0, "account_id"@) + token_if(
        target.name@.len() == 0,
        "name"@,
    ));
    match &target.kv_namespaces {
        Some(kv_namespaces) => {
            let n = kv_namespaces.len();
            let mut i: usize = 0;
            assert(kv_namespaces@.take(0) =~= Seq::<KvNamespace>::empty());
            while i < n
                invariant
                    i <= n,
                    n == kv_namespaces@.len(),
                    texts(missing@) == head + missing_in_namespaces(kv_namespaces@.take(i as int)),
                decreases n - i,
            {
                let kv = &kv_namespaces[i];
                let ghost before = texts(missing@);
                if kv.binding.as_str().is_empty() {
                    missing.push("kv-namespace binding");
                }
                if kv.id.as_str().is_empty() {
                    missing.push("kv-namespace id");
                }
                proof {
                    let next = kv_namespaces@.take(i + 1);
                    assert(next.drop_last() =~= kv_namespaces@.take(i as int));
                    assert(next.last() == *kv);
                    assert(texts(missing@) =~= before + missing_in_namespace(*kv));
                }
                i += 1;
            }
            assert(kv_namespaces@.take(n as int) =~= kv_namespaces@);
        },
        None => {},
    }
    missing
}

/// The number of empty bindings and ids in a list of namespaces.
pub open spec fn blanks(kvs: Seq<KvNamespace>) -> nat
    decreases kvs.len(),
{
    if kvs.len() == 0 {
        0
    } else {
        blanks(kvs.drop_last()) + (if kvs.last().binding@.len() == 0 {
            1nat
        } else {
            0nat
        }) + (if kvs.last().id@.len() == 0 {
            1nat
        } else {
            0nat
        })
    }
}

proof fn lemma_namespace_tokens(kvs: Seq<KvNamespace>)
    ensures
        missing_in_namespaces(kvs).len() == blanks(kvs),
        blanks(kvs) == 0 <==> forall|i: int|
            0 <= i < kvs.len() ==> (#[trigger] kvs[i]).binding@.len() > 0 && kvs[i].id@.len() > 0,
    decreases kvs.len(),
{
    if kvs.len() > 0 {
        let front = kvs.drop_last();
        lemma_namespace_tokens(front);
        assert forall|i: int| 0 <= i < front.len() implies front[i] == kvs[i] by {}
        if blanks(kvs) == 0 {
            assert forall|i: int| 0 <= i < kvs.len() implies (#[trigger] kvs[i]).binding@.len() > 0
                && kvs[i].id@.len() > 0 by {
                if i < front.len() {
                    assert(front[i] == kvs[i]);
                }
            }
        } else {
            if blanks(front) != 0 {
                let i = choose|i: int|
                    0 <= i < front.len() && !((#[trigger] front[i]).binding@.len() > 0
                        && front[i].id@.len() > 0);
                assert(kvs[i] == front[i]);
            } else {
                assert(kvs[kvs.len() - 1] == kvs.last());
            }
        }
    }
}

/// `validate` gives one token for each empty required field: the account
/// id, the name, and every namespace's binding and id.
pub proof fn lemma_one_token_per_empty_field(target: Target)
    ensures
        missing_fields(target).len() == (if target.account_id@.len() == 0 {
            1nat
        } else {
            0nat
        }) + (if target.name@.len() == 0 {
            1nat
        } else {
            0nat
        }) + (match target.kv_namespaces {
            Some(kvs) => blanks(kvs@),
            None => 0nat,
        }),
{
    if let Some(kvs) = target.kv_namespaces {
        lemma_namespace_tokens(kvs@);
    }
}

/// `validate` gives no token if and only if every required field is
/// present.
pub proof fn lemma_no_token_iff_complete(target: Target)
    ensures
        missing_fields(target).len() == 0 <==> complete(target),
{
    lemma_one_token_per_empty_field(target);
    if let Some(kvs) = target.kv_namespaces {
        lemma_namespace_tokens(kvs@);
    }
}

/// How often `token` stands in `tokens`.
pub open spec fn occurrences(tokens: Seq<Seq<char>>, token: Seq<char>) -> nat
    decreases tokens.len(),
{
    if tokens.len() == 0 {
        0
    } else {
        occurrences(tokens.drop_last(), token) + (if tokens.last() == token {
            1nat
        } else {
            0nat
        })
    }
}

/// The number of namespaces with an empty binding.
pub open spec fn empty_bindings(kvs: Seq<KvNamespace>) -> nat
    decreases kvs.len(),
{
    if kvs.len() == 0 {
        0
    } else {
        empty_bindings(kvs.drop_last()) + (if kvs.last().binding@.len() == 0 {
            1nat
        } else {
            0nat
        })
    }
}

/// The number of namespaces with an empty id.
pub open spec fn empty_ids(kvs: Seq<KvNamespace>) -> nat
    decreases kvs.len(),
{
    if kvs.len() == 0 {
        0
    } else {
        empty_ids(kvs.drop_last()) + (if kvs.last().id@.len() == 0 {
            1nat
        } else {
            0nat
        })
    }
}

proof fn lemma_occurrences_concat(a: Seq<Seq<char>>, b: Seq<Seq<char>>, token: Seq<char>)
    ensures
        occurrences(a + b, token) == occurrences(a, token) + occurrences(b, token),
    decreases b.len(),
{
    if b.len() == 0 {
        assert(a + b =~= a);
    } else {
        lemma_occurrences_concat(a, b.drop_last(), token);
        assert((a + b).drop_last() =~= a + b.drop_last());
        assert((a + b).last() == b.last());
    }
}

proof fn lemma_occurrences_of_one(absent: bool, given: Seq<char>, token: Seq<char>)
    ensures
        occurrences(token_if(absent, given), token) == (if absent && given == token {
            1nat
        } else {
            0nat
        }),
{
    let one = token_if(absent, given);
    if absent {
        assert(one.drop_last() =~= Seq::<Seq<char>>::empty());
        assert(occurrences(one.drop_last(), token) == 0);
        assert(one.last() == given);
    }
}

/// The four tokens differ from one another.
proof fn lemma_tokens_differ()
    ensures
        "account_id"@ != "name"@,
        "account_id"@ != "kv-namespace binding"@,
        "account_id"@ != "kv-namespace id"@,
        "name"@ != "kv-namespace binding"@,
        "name"@ != "kv-namespace id"@,
        "kv-namespace binding"@ != "kv-namespace id"@,
{
    reveal_strlit("account_id");
    reveal_strlit("name");
    reveal_strlit("kv-namespace binding");
    reveal_strlit("kv-namespace id");
    assert("account_id"@.len() == 10);
    assert("name"@.len() == 4);
    assert("kv-namespace binding"@.len() == 20);
    assert("kv-namespace id"@.len() == 15);
}

proof fn lemma_namespace_occurrences(kvs: Seq<KvNamespace>)
    ensures
        occurrences(missing_in_namespaces(kvs), "account_id"@) == 0,
        occurrences(missing_in_namespaces(kvs), "name"@) == 0,
        occurrences(missing_in_namespaces(kvs), "kv-namespace binding"@) == empty_bindings(kvs),
        occurrences(missing_in_namespaces(kvs), "kv-namespace id"@) == empty_ids(kvs),
    decreases kvs.len(),
{
    lemma_tokens_differ();
    if kvs.len() > 0 {
        let front = missing_in_namespaces(kvs.drop_last());
        let last = kvs.last();
        let binding = token_if(last.binding@.len() == 0, "kv-namespace binding"@);
        let id = token_if(last.id@.len() == 0, "kv-namespace id"@);
        lemma_namespace_occurrences(kvs.drop_last());
        assert(missing_in_namespaces(kvs) == front + (binding + id));
        lemma_counts_of_three(front, binding, id, "account_id"@);
        lemma_counts_of_three(front, binding, id, "name"@);
        lemma_counts_of_three(front, binding, id, "kv-namespace binding"@);
        lemma_counts_of_three(front, binding, id, "kv-namespace id"@);
        lemma_occurrences_of_one(last.binding@.len() == 0, "kv-namespace binding"@, "account_id"@);
        lemma_occurrences_of_one(last.binding@.len() == 0, "kv-namespace binding"@, "name"@);
        lemma_occurrences_of_one(
            last.binding@.len() == 0,
            "kv-namespace binding"@,
            "kv-namespace binding"@,
        );
        lemma_occurrences_of_one(
            last.binding@.len() == 0,
            "kv-namespace binding"@,
            "kv-namespace id"@,
        );
        lemma_occurrences_of_one(last.id@.len() == 0, "kv-namespace id"@, "account_id"@);
        lemma_occurrences_of_one(last.id@.len() == 0, "kv-namespace id"@, "name"@);
        lemma_occurrences_of_one(last.id@.len() == 0, "kv-namespace id"@, "kv-namespace binding"@);
        lemma_occurrences_of_one(last.id@.len() == 0, "kv-namespace id"@, "kv-namespace id"@);
    }
}

proof fn lemma_counts_of_three(
    a: Seq<Seq<char>>,
    b: Seq<Seq<char>>,
    c: Seq<Seq<char>>,
    token: Seq<char>,
)
    ensures
        occurrences(a + (b + c), token) == occurrences(a, token) + occurrences(b, token)
            + occurrences(c, token),
        occurrences(a + b + c, token) == occurrences(a, token) + occurrences(b, token)
            + occurrences(c, token),
{
    lemma_occurrences_concat(b, c, token);
    lemma_occurrences_concat(a, b + c, token);
    assert(a + b + c =~= a + (b + c));
}

/// `validate` names each empty field as often as it occurs: the account id
/// once where it is empty, the name once where it is empty, a binding for
/// every namespace whose binding is empty, and an id for every namespace
/// whose id is empty.
pub proof fn lemma_each_empty_field_is_named(target: Target)
    ensures
        occurrences(missing_fields(target), "account_id"@) == (if target.account_id@.len() == 0 {
            1nat
        } else {
            0nat
        }),
        occurrences(missing_fields(target), "name"@) == (if target.name@.len() == 0 {
            1nat
        } else {
            0nat
        }),
        occurrences(missing_fields(target), "kv-namespace binding"@) == (match target.kv_namespaces {
            Some(kvs) => empty_bindings(kvs@),
            None => 0nat,
        }),
        occurrences(missing_fields(target), "kv-namespace id"@) == (match target.kv_namespaces {
            Some(kvs) => empty_ids(kvs@),
            None => 0nat,
        }),
{
    lemma_tokens_differ();
    let account = token_if(target.account_id@.len() == 0, "account_id"@);
    let name = token_if(target.name@.len() == 0, "name"@);
    let rest = match target.kv_namespaces {
        Some(kvs) => missing_in_namespaces(kvs@),
        None => Seq::empty(),
    };
    assert(missing_fields(target) == account + name + rest);
    if let Some(kvs) = target.kv_namespaces {
        lemma_namespace_occurrences(kvs@);
    }
    lemma_counts_of_three(account, name, rest, "account_id"@);
    lemma_counts_of_three(account, name, rest, "name"@);
    lemma_counts_of_three(account, name, rest, "kv-namespace binding"@);
    lemma_counts_of_three(account, name, rest, "kv-namespace id"@);
    lemma_occurrences_of_one(target.account_id@.len() == 0, "account_id"@, "account_id"@);
    lemma_occurrences_of_one(target.account_id@.len() == 0, "account_id"@, "name"@);
    lemma_occurrences_of_one(target.account_id@.len() == 0, "account_id"@, "kv-namespace binding"@);
    lemma_occurrences_of_one(target.account_id@.len() == 0, "account_id"@, "kv-namespace id"@);
    lemma_occurrences_of_one(target.name@.len() == 0, "name"@, "account_id"@);
    lemma_occurrences_of_one(target.name@.len() == 0, "name"@, "name"@);
    lemma_occurrences_of_one(target.name@.len() == 0, "name"@, "kv-namespace binding"@);
    lemma_occurrences_of_one(target.name@.len() == 0, "name"@, "kv-namespace id"@);
}

/// The result of a successful upload: the identifier of the preview.
#[derive(Debug)]
pub struct Preview {
    pub id: String,
}

/// The preview as the authenticated endpoint names it.
#[derive(Debug)]
pub struct ApiPreview {
    pub preview_id: String,
}

/// The envelope in which the authenticated endpoint replies.
#[derive(Debug)]
pub struct V4ApiResponse {
    pub result: ApiPreview,
}

impl From<ApiPreview> for Preview {
    fn from(api_preview: ApiPreview) -> (preview: Preview) {
        Preview { id: api_preview.preview_id }
    }
}

impl FromSpecImpl<ApiPreview> for Preview {
    open spec fn obeys_from_spec() -> bool {
        true
    }

    open spec fn from_spec(api_preview: ApiPreview) -> Preview {
        Preview { id: api_preview.preview_id }
    }
}

/// A reply's body as the caller decoded it, in one of the two shapes.
#[derive(Debug)]
pub enum Decoded {
    /// The shape of the unauthenticated endpoint: the preview itself.
    Flat(Preview),
    /// The shape of the authenticated endpoint: the preview in an envelope.
    Wrapped(V4ApiResponse),
}

/// What came back from a preview endpoint.
#[derive(Debug)]
pub struct Reply {
    pub status: u16,
    pub body: String,
    /// `None` where the body could not be decoded in the shape asked for.
    pub decoded: Option<Decoded>,
}

/// Why an upload did not yield a preview.
#[derive(Debug)]
pub enum UploadError {
    /// A site was to be previewed, and only the unauthenticated path was
    /// open. Raised before anything is sent.
    SitesNeedAuthentication,
    /// The endpoint answered with a status outside 200 to 299.
    Remote { status: u16, body: String },
    /// The endpoint answered with success, and the body is not a preview
    /// in the expected shape.
    Decode { body: String },
    /// A call made for the upload failed.
    Collaborator { message: String },
    /// A report arrived that the step before it did not ask for.
    OutOfOrder,
}

/// The three ways a script is delivered.
#[derive(Clone, Copy, Debug, PartialEq, Eq, Structural)]
pub enum Strategy {
    /// One request to the open endpoint, without credentials.
    Unauthenticated,
    /// One request to the account's endpoint.
    DirectAuthenticated,
    /// Site assets are synchronised, then the script is sent with their
    /// manifest, then stale assets are removed.
    SiteSync,
}

/// The strategy for an upload, or the refusal: with credentials and a
/// complete target, by whether the target has a site; otherwise without
/// authentication, which a site preview cannot use.
pub open spec fn strategy_for(
    has_credentials: bool,
    complete: bool,
    sites_preview: bool,
    has_site: bool,
) -> Result<Strategy, UploadError> {
    if has_credentials && complete {
        if has_site {
            Ok(Strategy::SiteSync)
        } else {
            Ok(Strategy::DirectAuthenticated)
        }
    } else if sites_preview {
        Err(UploadError::SitesNeedAuthentication)
    } else {
        Ok(Strategy::Unauthenticated)
    }
}

/// Chooses the strategy for an upload before anything is sent.
pub fn choose_strategy(
    has_credentials: bool,
    complete: bool,
    sites_preview: bool,
    has_site: bool,
) -> (r: Result<Strategy, UploadError>)
    ensures
        r == strategy_for(has_credentials, complete, sites_preview, has_site),
{
    if has_credentials && complete {
        if has_site {
            Ok(Strategy::SiteSync)
        } else {
            Ok(Strategy::DirectAuthenticated)
        }
    } else if sites_preview {
        Err(UploadError::SitesNeedAuthentication)
    } else {
        Ok(Strategy::Unauthenticated)
    }
}

/// Whether a status is one of 200 to 299.
pub open spec fn is_success(status: u16) -> bool {
    200 <= status < 300
}

/// The preview that a reply carries, or the error that it stands for.
///
/// A status outside 200 to 299 is a remote error with that status and the
/// body. Otherwise the body must have been decoded in the shape of the
/// endpoint asked, the envelope for an authenticated request and the bare
/// preview for an unauthenticated one, and must name a non-empty
/// identifier; if not, it is a decode error with the body.
pub open spec fn preview_of(authenticated: bool, reply: Reply) -> Result<Preview, UploadError> {
    if !is_success(reply.status) {
        Err(UploadError::Remote { status: reply.status, body: reply.body })
    } else {
        match reply.decoded {
            Some(Decoded::Wrapped(response)) => if authenticated
                && response.result.preview_id@.len() > 0 {
                Ok(Preview { id: response.result.preview_id })
            } else {
                Err(UploadError::Decode { body: reply.body })
            },
            Some(Decoded::Flat(preview)) => if !authenticated && preview.id@.len() > 0 {
                Ok(preview)
            } else {
                Err(UploadError::Decode { body: reply.body })
            },
            None => Err(UploadError::Decode { body: reply.body }),
        }
    }
}

/// Turns the reply of a preview endpoint into the preview or the error.
/// A preview that comes out of it has a non-empty identifier.
pub fn interpret_reply(authenticated: bool, reply: Reply) -> (r: Result<Preview, UploadError>)
    ensures
        r == preview_of(authenticated, reply),
        r matches Ok(preview) ==> preview.id@.len() > 0,
{
    if reply.status < 200 || reply.status >= 300 {
        return Err(UploadError::Remote { status: reply.status, body: reply.body });
    }
    match reply.decoded {
        Some(Decoded::Wrapped(response)) => {
            if authenticated && !response.result.preview_id.as_str().is_empty() {
                Ok(Preview::from(response.result))
            } else {
                Err(UploadError::Decode { body: reply.body })
            }
        },
        Some(Decoded::Flat(preview)) => {
            if !authenticated && !preview.id.as_str().is_empty() {
                Ok(preview)
            } else {
                Err(UploadError::Decode { body: reply.body })
            }
        },
        None => Err(UploadError::Decode { body: reply.body }),
    }
}

/// The address that a script is sent to: one fixed address without
/// authentication, else the preview of the script `name` in the account.
pub open spec fn address_text(strategy: Strategy, account_id: Seq<char>, name: Seq<char>) -> Seq<
    char,
> {
    match strategy {
        Strategy::Unauthenticated => "https://cloudflareworkers.com/script"@,
        _ => "https://api.cloudflare.com/client/v4/accounts/"@ + account_id
            + "/workers/scripts/"@ + name + "/preview"@,
    }
}

/// What the refusal of a site preview without authentication says.
pub open spec fn sites_refusal_text() -> Seq<char> {
    "Unauthenticated preview does not work for previewing Workers Sites; you need to authenticate to upload your site contents."@
}

/// The address that the script of `target` is sent to under `strategy`.
pub fn preview_address(strategy: Strategy, target: &Target) -> (address: String)
    ensures
        address@ == address_text(strategy, target.account_id@, target.name@),
{
    match strategy {
        Strategy::Unauthenticated => String::from_str("https://cloudflareworkers.com/script"),
        _ => {
            let mut address = String::from_str("https://api.cloudflare.com/client/v4/accounts/");
            address.append(target.account_id.as_str());
            address.append("/workers/scripts/");
            address.append(target.name.as_str());
            address.append("/preview");
            address
        },
    }
}

/// The target to send in place of `target` under `strategy`, where it is
/// another: without authentication, a target that declares namespaces is
/// sent as a copy without them, since the open endpoint does not take
/// them. `None` says that `target` is sent as it is.
pub fn stripped_target(strategy: Strategy, target: &Target) -> (r: Option<Target>)
    ensures
        r is Some <==> strategy == Strategy::Unauthenticated && target.kv_namespaces is Some,
        r matches Some(copy) ==> {
            &&& copy.account_id == target.account_id
            &&& copy.name == target.name
            &&& copy.kv_namespaces is None
            &&& copy.site == target.site
        },
{
    match strategy {
        Strategy::Unauthenticated => {
            if target.kv_namespaces.is_some() {
                Some(target.without_kv_namespaces())
            } else {
                None
            }
        },
        _ => None,
    }
}

impl UploadError {
    /// The guidance for a remote error whose status has any: 413 and 504.
    pub fn guidance(&self) -> (r: Option<&'static str>)
        ensures
            match r {
                Some(text) => *self matches UploadError::Remote { status, .. } && status_context(
                    status,
                ) == Some(text@),
                None => *self matches UploadError::Remote { status, .. } ==> status_context(status)
                    is None,
            },
    {
        match self {
            UploadError::Remote { status, .. } => status_code_context(*status),
            _ => None,
        }
    }

    /// The text of the refusal to preview a site without authentication.
    pub fn sites_refusal() -> (r: &'static str)
        ensures
            r@ == sites_refusal_text(),
    {
        "Unauthenticated preview does not work for previewing Workers Sites; you need to authenticate to upload your site contents."
    }
}

} // verus!
