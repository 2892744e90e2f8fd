use vstd::prelude::*;
use crate::config::PlatformType;
use crate::error::TranslateError;
use crate::json::{field_in, item_in, str_in, JsonValue};
use crate::request::{is_thinking_model, thinking_model};
use crate::text::{occurs_at, occurs_in, replace, replace_all};

verus! {

/// The empty reasoning block that a thinking model may put before its
/// answer even when told not to reason.
pub const EMPTY_THINK_BLOCK: &'static str = "<think>\n\n</think>\n\n";

/// Where the platform's response carries the translated text: `message.content`
/// for the local model server, `result` for the translation server, and
/// `choices[0].message.content` for the other chat-completion platforms.
pub open spec fn reply_text(body: JsonValue, platform: PlatformType) -> Option<Seq<char>> {
    match platform {
        PlatformType::OLLama => str_in(field_in(field_in(Some(body), "message"@), "content"@)),
        PlatformType::MTranServer => str_in(field_in(Some(body), "result"@)),
        _ => str_in(
            field_in(field_in(item_in(field_in(Some(body), "choices"@), 0), "message"@), "content"@),
        ),
    }
}

/// The reply text after cleanup: for a thinking model on the local model
/// server, every empty reasoning block is cut out; otherwise it is kept as
/// it came.
pub open spec fn cleaned_text(t: Seq<char>, platform: PlatformType, model: Seq<char>) -> Seq<char> {
    if platform == PlatformType::OLLama && is_thinking_model(model) {
        replace_all(t, EMPTY_THINK_BLOCK@, Seq::<char>::empty())
    } else {
        t
    }
}

/// The text field that the platform's response shape puts the translation
/// in, or a parse error naming the platform when it is missing or is not a
/// string.
pub fn extract_text(body: &JsonValue, platform: PlatformType) -> (r: Result<&str, TranslateError>)
    ensures
        match reply_text(*body, platform) {
            Some(t) => r is Ok && r->Ok_0@ == t,
            None => r is Err && r->Err_0 == TranslateError::Parse(platform),
        },
{
    let found = match platform {
        PlatformType::OLLama => match body.get("message") {
            Some(m) => m.get("content"),
            None => None,
        },
        PlatformType::MTranServer => body.get("result"),
        _ => match body.get("choices") {
            Some(choices) => match choices.at(0) {
                Some(first) => match first.get("message") {
                    Some(m) => m.get("content"),
                    None => None,
                },
                None => None,
            },
            None => None,
        },
    };
    match found {
        Some(v) => match v.as_str() {
            Some(s) => Ok(s),
            None => Err(TranslateError::Parse(platform)),
        },
        None => Err(TranslateError::Parse(platform)),
    }
}

/// The translation in a decoded response: the platform's text field, with
/// the empty reasoning block cut out for a thinking model on the local model
/// server. A response without that field is a parse error, never an empty
/// translation.
pub fn parse_response(body: &JsonValue, platform: PlatformType, model: &str) -> (r: Result<
    String,
    TranslateError,
>)
    ensures
        match reply_text(*body, platform) {
            Some(t) => r is Ok && r->Ok_0@ == cleaned_text(t, platform, model@),
            None => r is Err && r->Err_0 == TranslateError::Parse(platform),
        },
{
    let text = match extract_text(body, platform) {
        Ok(t) => t,
        Err(e) => return Err(e),
    };
    let is_local = match platform {
        PlatformType::OLLama => true,
        _ => false,
    };
    if is_local && thinking_model(model) {
        proof {
            reveal_strlit("<think>\n\n</think>\n\n");
            reveal_strlit("");
            assert(""@ =~= Seq::<char>::empty());
        }
        Ok(replace(text, EMPTY_THINK_BLOCK, ""))
    } else {
        Ok(String::from_str(text))
    }
}

/// Replacing a pattern that does not occur leaves the text as it is.
proof fn lemma_replace_absent(s: Seq<char>, pat: Seq<char>, rep: Seq<char>)
    requires
        pat.len() > 0,
        !occurs_in(s, pat),
    ensures
        replace_all(s, pat, rep) == s,
    decreases s.len(),
{
    if s.len() >= pat.len() {
        assert(!occurs_at(s, pat, 0));
        assert(s.subrange(0, pat.len() as int) != pat);
        let t = s.drop_first();
        assert forall|i: int| !occurs_at(t, pat, i) by {
            if occurs_at(t, pat, i) {
                assert(s.subrange(i + 1, i + 1 + pat.len()) =~= t.subrange(i, i + pat.len()));
                assert(occurs_at(s, pat, i + 1));
            }
        }
        lemma_replace_absent(t, pat, rep);
        assert(s =~= seq![s[0]] + t);
    }
}

/// A local-model-server reply made of the empty reasoning block followed by
/// text without another such block: for a thinking model the block is cut
/// and the rest comes back character for character; for any other model the
/// reply comes back whole, block included.
pub proof fn empty_think_block_stripped(rest: Seq<char>, model: Seq<char>)
    requires
        !occurs_in(rest, EMPTY_THINK_BLOCK@),
    ensures
        is_thinking_model(model) ==> cleaned_text(
            EMPTY_THINK_BLOCK@ + rest,
            PlatformType::OLLama,
            model,
        ) == rest,
        !is_thinking_model(model) ==> cleaned_text(
            EMPTY_THINK_BLOCK@ + rest,
            PlatformType::OLLama,
            model,
        ) == EMPTY_THINK_BLOCK@ + rest,
{
    reveal_strlit("<think>\n\n</think>\n\n");
    let block = EMPTY_THINK_BLOCK@;
    let t = block + rest;
    assert(t.subrange(0, block.len() as int) =~= block);
    assert(t.subrange(block.len() as int, t.len() as int) =~= rest);
    lemma_replace_absent(rest, block, Seq::<char>::empty());
    assert(Seq::<char>::empty() + rest =~= rest);
}

} // verus!
