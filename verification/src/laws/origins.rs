//! Which relying party a ceremony is held for, and from where clients may speak.
use vstd::prelude::*;
use super::{asks, gives};
use crate::encoding::base64url_bytes;
use crate::flow::{ActionModel, ReplyModel};
use crate::text::{after_prefix, is_ascii_text, trimmed_end, upper, uppered};
use crate::types::PasskeyConfigModel;
use crate::webauthn::{
    aligned, allowed_origin, config_for, law_trimming_stops_at,
    verify_origin_and_align_config_script,
};

verus! {

/// The relying party is named by the host where the server can be reached, or by `localhost`; its
/// origin is the address itself, and a ceremony must end within five minutes.
pub proof fn law_relying_party(host: Seq<char>, base_url: Seq<char>)
    ensures
        config_for(Some(host), base_url).rp_id == host,
        config_for(None, base_url).rp_id == "localhost"@,
        forall|host: Option<Seq<char>>|
            {
                let config = #[trigger] config_for(host, base_url);
                &&& config.rp_name == "Warden"@
                &&& config.origin == base_url
                &&& config.state_ttl == 5 * 60
            },
{
}

/// This many slashes.
pub open spec fn slashes(n: nat) -> Seq<char> {
    Seq::new(n, |i: int| '/')
}

/// Text that does not end in a slash.
pub open spec fn ends_plainly(text: Seq<char>) -> bool {
    text.len() > 0 ==> text.last() != '/'
}

/// Where a client may speak from: the server's own address, the browser extensions with a fixed
/// address, and every Firefox extension.
pub open spec fn is_home(base_url: Seq<char>, origin: Seq<char>) -> bool {
    ||| origin == base_url
    ||| origin == "chrome-extension://nngceckbapebfimnlniiiahkandclblb"@
    ||| origin == "chrome-extension://jbkfoedolllekgbhcbcoahefnbanhhlh"@
    ||| origin == "chrome-extension://ccnckbpmaceehanjmeomladnmlffdjgn"@
    ||| exists|rest: Seq<char>| origin == "moz-extension://"@ + rest
}

/// Whether an origin is allowed does not depend on slashes behind it: with or without them it is
/// allowed exactly where what stands before them is a place to speak from.
pub proof fn law_allowed_origins(base_url: Seq<char>, origin: Seq<char>, n: nat)
    requires
        ends_plainly(origin),
    ensures
        allowed_origin(base_url, origin + slashes(n)) <==> is_home(base_url, origin),
{
    law_trimming_stops_at(origin, n);
    let prefix = "moz-extension://"@;
    if prefix.is_prefix_of(origin) {
        let rest = origin.skip(prefix.len() as int);
        assert(origin =~= prefix + rest);
    }
    if exists|rest: Seq<char>| origin == prefix + rest {
        let rest = choose|rest: Seq<char>| origin == prefix + rest;
        assert(prefix =~= origin.take(prefix.len() as int));
        assert(prefix.is_prefix_of(origin));
    }
}

/// Every text is one that does not end in the character, with some number of it behind, and
/// trimming gives the former.
pub proof fn law_trimming_splits(text: Seq<char>, c: char)
    ensures
        ({
            let kept = trimmed_end(text, c);
            &&& kept.len() <= text.len()
            &&& kept == text.take(kept.len() as int)
            &&& forall|i: int| kept.len() <= i < text.len() ==> #[trigger] text[i] == c
            &&& kept.len() > 0 ==> kept.last() != c
        }),
    decreases text.len(),
{
    if text.len() > 0 && text.last() == c {
        let shorter = text.drop_last();
        law_trimming_splits(shorter, c);
        let kept = trimmed_end(text, c);
        assert(kept =~= text.take(kept.len() as int));
        assert forall|i: int| kept.len() <= i < text.len() implies #[trigger] text[i] == c by {
            if i < shorter.len() {
                assert(shorter[i] == text[i]);
            }
        }
    } else {
        assert(text.take(text.len() as int) =~= text);
    }
}

/// What stands behind a prefix is what, put behind it, gives the text.
pub proof fn law_after_prefix(text: Seq<char>, prefix: Seq<char>, rest: Seq<char>)
    ensures
        after_prefix(text, prefix) == Some(rest) <==> text == prefix + rest,
{
    if text == prefix + rest {
        assert(text.take(prefix.len() as int) =~= prefix);
        assert(text.skip(prefix.len() as int) =~= rest);
    }
    if after_prefix(text, prefix) == Some(rest) {
        assert(text =~= prefix + rest);
    }
}

/// Upper case keeps the length and every character but the small letters, which become the letters
/// at the same place of the other alphabet.
pub proof fn law_upper_case(text: Seq<char>, i: int)
    requires
        0 <= i < text.len(),
    ensures
        uppered(text).len() == text.len(),
        'a' <= text[i] <= 'z' ==> {
            &&& 'A' <= uppered(text)[i] <= 'Z'
            &&& uppered(text)[i] as int - 'A' as int == text[i] as int - 'a' as int
        },
        !('a' <= text[i] <= 'z') ==> uppered(text)[i] == text[i],
        is_ascii_text(text) ==> text[i] as int <= 0x7f,
        (forall|j: int| 0 <= j < text.len() ==> #[trigger] text[j] as int <= 0x7f)
            ==> is_ascii_text(text),
{
    assert(uppered(text)[i] == upper(text[i]));
}

/// An allowed origin takes the place of the configured one, slashes included; no other does; and
/// nothing else of the configuration changes.
pub proof fn law_alignment(config: PasskeyConfigModel, origin: Seq<char>)
    ensures
        aligned(config, None) == config,
        !allowed_origin(config.origin, origin) ==> aligned(config, Some(origin)) == config,
        allowed_origin(config.origin, origin) ==> {
            let after = aligned(config, Some(origin));
            &&& after.origin == origin
            &&& after.rp_id == config.rp_id
            &&& after.rp_name == config.rp_name
            &&& after.state_ttl == config.state_ttl
        },
{
}

/// The decoded client data is read for its origin, and the configuration is aligned with what was
/// found there. What cannot be decoded is not read.
pub proof fn law_alignment_reads_client_data(
    config: PasskeyConfigModel,
    client_data_json: Seq<char>,
    client_data: Seq<u8>,
    origin: Option<Seq<char>>,
    replies: Seq<ReplyModel>,
    at: int,
)
    requires
        0 <= at <= replies.len(),
        at < replies.len() ==> replies[at] == ReplyModel::Origin(origin),
    ensures
        ({
            let result = verify_origin_and_align_config_script(
                config,
                client_data_json,
                replies,
                at,
            );
            &&& base64url_bytes(client_data_json) is None ==> gives(result, config, at)
            &&& base64url_bytes(client_data_json) == Some(client_data) ==> {
                if at == replies.len() {
                    asks(result, ActionModel::ReadOrigin { client_data })
                } else if origin is Some && allowed_origin(config.origin, origin->0) {
                    gives(
                        result,
                        PasskeyConfigModel {
                            rp_id: config.rp_id,
                            rp_name: config.rp_name,
                            origin: origin->0,
                            state_ttl: config.state_ttl,
                        },
                        at + 1,
                    )
                } else {
                    gives(result, config, at + 1)
                }
            }
        }),
{
}

} // verus!
