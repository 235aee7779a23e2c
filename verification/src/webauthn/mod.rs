//! Passkeys and security keys.
pub mod ceremony;
pub mod compat;
pub mod login;
pub mod prf;
pub mod store;
pub mod twofactor;

use vstd::prelude::*;
use crate::encoding::{base64url_bytes, decode_base64url};
use crate::flow::{
    chain, progress, read_origin, read_origin_script, Progress, ProgressModel, Reply, ReplyModel,
};
use crate::text::{has_prefix, same_text, trim_end, trimmed_end};
use crate::types::{PasskeyConfig, PasskeyConfigModel};

verus! {

/// What `url` finds to be the host of a URL, without its port, if the text is a URL that has one.
pub uninterp spec fn url_host(url: Seq<char>) -> Option<Seq<char>>;

/// Calls `Url::parse` of `url`, and `Url::host_str` on what it gives.
///
/// Claimed of them: what they give depends on the text alone, and is named [`url_host`]. Which
/// texts are URLs and what their hosts are is the URL standard, and is not spelled out here.
#[verifier::external_body]
fn host_of(url: &str) -> (host: Option<String>)
    ensures
        host.deep_view() == url_host(url@),
{
    url::Url::parse(url).ok().and_then(|url| url.host_str().map(|host| host.to_string()))
}

/// The relying party at `base_url`, whose host is `host`.
pub open spec fn config_for(host: Option<Seq<char>>, base_url: Seq<char>) -> PasskeyConfigModel {
    PasskeyConfigModel {
        rp_id: match host {
            Some(host) => host,
            None => "localhost"@,
        },
        rp_name: "Warden"@,
        origin: base_url,
        state_ttl: 300,
    }
}

/// The relying party at `base_url`, whose host is `host`: `localhost` where there is none.
pub fn passkey_config(host: Option<String>, base_url: &str) -> (config: PasskeyConfig)
    ensures
        config.deep_view() == config_for(host.deep_view(), base_url@),
{
    PasskeyConfig {
        rp_id: match host {
            Some(host) => host,
            None => "localhost".to_string(),
        },
        rp_name: "Warden".to_string(),
        origin: base_url.to_string(),
        state_ttl: 300,
    }
}

/// The relying party at `base_url`: its id is the host in the URL, its origin the URL as it is.
pub fn build_passkey_config(base_url: &str) -> (config: PasskeyConfig)
    ensures
        config.deep_view() == config_for(url_host(base_url@), base_url@),
{
    passkey_config(host_of(base_url), base_url)
}

/// Whether `origin` is one of the browser extensions with a fixed origin.
pub open spec fn is_known_extension(origin: Seq<char>) -> bool {
    ||| origin == "chrome-extension://nngceckbapebfimnlniiiahkandclblb"@
    ||| origin == "chrome-extension://jbkfoedolllekgbhcbcoahefnbanhhlh"@
    ||| origin == "chrome-extension://ccnckbpmaceehanjmeomladnmlffdjgn"@
}

/// Whether client data with this origin is accepted at `base_url`. Slashes at the end of the origin
/// do not count.
pub open spec fn allowed_origin(base_url: Seq<char>, origin: Seq<char>) -> bool {
    let origin = trimmed_end(origin, '/');
    ||| origin == base_url
    ||| is_known_extension(origin)
    ||| "moz-extension://"@.is_prefix_of(origin)
}

/// Whether client data with this origin is accepted at `base_url`.
pub fn is_allowed_origin(base_url: &str, origin: &str) -> (allowed: bool)
    ensures
        allowed == allowed_origin(base_url@, origin@),
{
    let origin = trim_end(origin, '/');
    same_text(origin, base_url) || same_text(
        origin,
        "chrome-extension://nngceckbapebfimnlniiiahkandclblb",
    ) || same_text(origin, "chrome-extension://jbkfoedolllekgbhcbcoahefnbanhhlh") || same_text(
        origin,
        "chrome-extension://ccnckbpmaceehanjmeomladnmlffdjgn",
    ) || has_prefix(origin, "moz-extension://")
}

/// The configuration that client data with this origin is checked against: the origin itself takes
/// the place of the configured one where it is allowed, and otherwise nothing changes.
pub open spec fn aligned(
    config: PasskeyConfigModel,
    origin: Option<Seq<char>>,
) -> PasskeyConfigModel {
    match origin {
        Some(origin) => if allowed_origin(config.origin, origin) {
            PasskeyConfigModel { origin, ..config }
        } else {
            config
        },
        None => config,
    }
}

/// The configuration that client data with this origin is checked against.
pub fn align_config(config: &PasskeyConfig, origin: &Option<String>) -> (aligned_config:
    PasskeyConfig)
    ensures
        aligned_config.deep_view() == aligned(config.deep_view(), origin.deep_view()),
{
    let mut aligned_config = config.clone();
    if let Some(origin) = origin {
        if is_allowed_origin(config.origin.as_str(), origin.as_str()) {
            aligned_config.origin = origin.clone();
        }
    }
    aligned_config
}

/// The configuration that client data is checked against: text that is not base64 leaves it as it
/// is, and otherwise the origin in the data decides.
pub open spec fn verify_origin_and_align_config_script(
    config: PasskeyConfigModel,
    client_data_json: Seq<char>,
    replies: Seq<ReplyModel>,
    at: int,
) -> ProgressModel<PasskeyConfigModel> {
    match base64url_bytes(client_data_json) {
        Some(client_data) => chain(
            read_origin_script(client_data, replies, at),
            |origin: Option<Seq<char>>, at: int| Ok((aligned(config, origin), at)),
        ),
        None => Ok((config, at)),
    }
}

/// Reads the origin in base64url-encoded client data and lets it take the place of the configured
/// one where it is allowed, so that the passkey protocol, which compares the two, accepts it.
///
/// The configuration stays as it is where the data cannot be read or the origin is not allowed.
pub fn verify_origin_and_align_config<'a>(
    config: &PasskeyConfig,
    client_data_json: &str,
    replies: &'a Vec<Reply>,
    at: usize,
) -> (result: Progress<PasskeyConfig>)
    ensures
        progress(result) == verify_origin_and_align_config_script(
            config.deep_view(),
            client_data_json@,
            replies.deep_view(),
            at as int,
        ),
{
    let client_data = match decode_base64url(client_data_json) {
        Some(bytes) => bytes,
        None => return Ok((config.clone(), at)),
    };
    assert(client_data.deep_view() =~= client_data@);
    let (origin, at) = read_origin(client_data, replies, at)?;
    Ok((align_config(config, origin), at))
}

/// Aligning changes the origin only, and only to an origin that is allowed.
pub proof fn law_alignment_keeps_the_rest(config: PasskeyConfigModel, origin: Option<Seq<char>>)
    ensures
        ({
            let after = aligned(config, origin);
            &&& after.rp_id == config.rp_id
            &&& after.rp_name == config.rp_name
            &&& after.state_ttl == config.state_ttl
            &&& after.origin == config.origin || origin == Some(after.origin) && allowed_origin(
                config.origin,
                after.origin,
            )
        }),
{
}

/// The origin of the server itself is always allowed, with any number of slashes behind it.
pub proof fn law_own_origin_is_allowed(base_url: Seq<char>, slashes: nat)
    requires
        base_url.len() > 0 ==> base_url.last() != '/',
    ensures
        allowed_origin(base_url, base_url + Seq::new(slashes, |i: int| '/')),
{
    law_trimming_stops_at(base_url, slashes);
}

/// Trimming slashes takes away those at the end and nothing else.
pub proof fn law_trimming_stops_at(text: Seq<char>, slashes: nat)
    requires
        text.len() > 0 ==> text.last() != '/',
    ensures
        trimmed_end(text + Seq::new(slashes, |i: int| '/'), '/') == text,
    decreases slashes,
{
    let padded = text + Seq::new(slashes, |i: int| '/');
    if slashes == 0 {
        assert(padded =~= text);
    } else {
        let fewer = (slashes - 1) as nat;
        assert(padded.drop_last() =~= text + Seq::new(fewer, |i: int| '/'));
        assert(padded.last() == '/');
        law_trimming_stops_at(text, fewer);
    }
}

} // verus!
