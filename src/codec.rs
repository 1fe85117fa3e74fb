//! Rendering of the wire record as a JSON payload, with the fallbacks that
//! keep rendering from failing.
use vstd::prelude::*;
use crate::err::{pairs_view, HttpError};

verus! {

/// The JSON string literal that stands for a text.
pub uninterp spec fn json_string_of(s: Seq<char>) -> Seq<char>;

/// Relies on `serde_json::to_string` on a `str`: it gives the JSON string
/// literal of the text, which depends on the text alone. It succeeds: the
/// text is escaped into an in-memory buffer, and writing there cannot fail.
#[verifier::external_body]
fn encode_str(s: &str) -> (r: Option<String>)
    ensures
        r is Some,
        r matches Some(t) ==> t@ == json_string_of(s@),
{
    serde_json::to_string(s).ok()
}

/// Context of a payload whose own context could not be rendered.
pub const SERIALISATION_ERROR_CONTEXT: &'static str =
    "{\"hypi_serialisation_error\":\"Failed to serialise the context for this error\"}";

/// Payload of an error whose code or message could not be rendered.
pub const UNSERIALISABLE_PAYLOAD: &'static str =
    "{\"code\":\"hypi_json_err\",\"message\":\"An error occurred but the server fail to serialise it to JSON.\"}";

/// The context of a payload without one.
pub const NULL_TEXT: &'static str = "null";

/// The payload object from the rendered code, message and context.
pub open spec fn object_text(code: Seq<char>, message: Seq<char>, context: Seq<char>) -> Seq<char> {
    "{\"code\":"@ + code + ",\"message\":"@ + message + ",\"context\":"@ + context + "}"@
}

/// One context entry as a JSON member.
pub open spec fn entry_text(p: (Seq<char>, Seq<char>)) -> Seq<char> {
    json_string_of(p.0) + ":"@ + json_string_of(p.1)
}

/// Context entries as JSON members, separated by commas.
pub open spec fn entries_text(s: Seq<(Seq<char>, Seq<char>)>) -> Seq<char>
    decreases s.len(),
{
    if s.len() == 0 {
        Seq::empty()
    } else if s.len() == 1 {
        entry_text(s[0])
    } else {
        entries_text(s.drop_last()) + ","@ + entry_text(s.last())
    }
}

/// The context as JSON: `null` where there is none, else an object.
pub open spec fn context_text(c: Option<Vec<(String, String)>>) -> Seq<char> {
    match c {
        Some(v) => "{"@ + entries_text(pairs_view(v@)) + "}"@,
        None => NULL_TEXT@,
    }
}

/// The payload of an error whose every part renders.
pub open spec fn full_payload(e: HttpError) -> Seq<char> {
    object_text(json_string_of(e.code.name@), json_string_of(e.message@), context_text(e.context))
}

/// The payload of an error whose context does not render: same code and
/// message, and a context that flags the failure.
pub open spec fn fallback_payload(e: HttpError) -> Seq<char> {
    object_text(json_string_of(e.code.name@), json_string_of(e.message@), SERIALISATION_ERROR_CONTEXT@)
}

/// The payload from the rendered parts, each `None` where rendering failed.
pub open spec fn framed(code: Option<Seq<char>>, message: Option<Seq<char>>, context: Option<Seq<char>>) -> Seq<char> {
    match (code, message) {
        (Some(c), Some(m)) => match context {
            Some(x) => object_text(c, m, x),
            None => object_text(c, m, SERIALISATION_ERROR_CONTEXT@),
        },
        _ => UNSERIALISABLE_PAYLOAD@,
    }
}

/// The view of an optional text.
pub open spec fn opt_view(s: Option<String>) -> Option<Seq<char>> {
    match s {
        Some(t) => Some(t@),
        None => None,
    }
}

/// Frames a payload from its rendered parts: the full object; where the
/// context did not render, the same code and message with a context that
/// flags it; where the code or message did not render, a fixed payload.
pub fn frame_payload(code: Option<String>, message: Option<String>, context: Option<String>) -> (r: String)
    ensures
        r@ == framed(opt_view(code), opt_view(message), opt_view(context)),
{
    match (code, message) {
        (Some(c), Some(m)) => {
            let mut s = "{\"code\":".to_string();
            s.append(c.as_str());
            s.append(",\"message\":");
            s.append(m.as_str());
            s.append(",\"context\":");
            match context {
                Some(x) => s.append(x.as_str()),
                None => s.append(SERIALISATION_ERROR_CONTEXT),
            }
            s.append("}");
            s
        },
        _ => UNSERIALISABLE_PAYLOAD.to_string(),
    }
}

/// Renders a context as JSON.
fn encode_context(c: &Option<Vec<(String, String)>>) -> (r: Option<String>)
    ensures
        r is Some,
        r matches Some(t) ==> t@ == context_text(*c),
{
    match c {
        None => Some(NULL_TEXT.to_string()),
        Some(v) => {
            let ghost pv = pairs_view(v@);
            let mut s = "{".to_string();
            let mut i: usize = 0;
            while i < v.len()
                invariant
                    0 <= i <= v@.len(),
                    pv == pairs_view(v@),
                    s@ == "{"@ + entries_text(pv.subrange(0, i as int)),
                decreases v@.len() - i,
            {
                let k = encode_str(v[i].0.as_str());
                let x = encode_str(v[i].1.as_str());
                match (k, x) {
                    (Some(k), Some(x)) => {
                        let ghost before = s@;
                        if i > 0 {
                            s.append(",");
                        }
                        s.append(k.as_str());
                        s.append(":");
                        s.append(x.as_str());
                        let ghost sub = pv.subrange(0, i + 1);
                        assert(sub.drop_last() =~= pv.subrange(0, i as int));
                        assert(sub.last() == pv[i as int]);
                        if i > 0 {
                            assert(s@ =~= before + ","@ + entry_text(pv[i as int]));
                        } else {
                            assert(s@ =~= before + entry_text(pv[i as int]));
                        }
                    },
                    _ => {
                        return None;
                    },
                }
                i = i + 1;
            }
            assert(pv.subrange(0, i as int) =~= pv);
            s.append("}");
            Some(s)
        },
    }
}

/// Renders an error as its JSON payload: the code's name, the message, and
/// the context (`null`, or an object of exactly its entries). Every part
/// renders, so the fallbacks of `frame_payload` are not taken here.
pub fn serialize(e: &HttpError) -> (r: String)
    ensures
        r@ == full_payload(*e),
{
    let code = encode_str(e.code.name.as_str());
    let message = encode_str(e.message.as_str());
    let context = encode_context(&e.context);
    frame_payload(code, message, context)
}

} // verus!

verus! {

impl HttpError {
    /// The error as its JSON payload, the same as `serialize` gives.
    pub fn to_string(&self) -> (r: String)
        ensures
            r@ == full_payload(*self),
    {
        serialize(self)
    }
}

} // verus!

verus! {

/// Where the code and message render but the context does not, the payload
/// holds the rendered code and message unchanged and, as its context, the
/// entry that flags the failure; for an error, that is its fallback payload.
pub proof fn lemma_fallback_keeps_code_and_message(e: HttpError, code: Seq<char>, message: Seq<char>)
    ensures
        framed(Some(code), Some(message), None) == object_text(code, message, SERIALISATION_ERROR_CONTEXT@),
        framed(Some(json_string_of(e.code.name@)), Some(json_string_of(e.message@)), None)
            == fallback_payload(e),
{
}

} // verus!
