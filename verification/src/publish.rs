//! The publish operation: deciding whether a post may go out, framing the
//! JSON body and bearer header it is sent with, and reading the provider's
//! answer.

use vstd::prelude::*;

use crate::error::AppError;
use crate::error::ErrorKind;
use crate::session::SessionView;
use crate::session::Session;
use crate::strutil::digit_char;
use crate::strutil::push_char;
use vstd::string::StringExecFns;

verus! {

/// The character for one hexadecimal digit (lower case).
pub open spec fn hex_char(d: int) -> char {
    if d < 10 {
        digit_char(d)
    } else if d == 10 {
        'a'
    } else if d == 11 {
        'b'
    } else if d == 12 {
        'c'
    } else if d == 13 {
        'd'
    } else if d == 14 {
        'e'
    } else {
        'f'
    }
}

/// How one character is written inside a JSON string literal: the common
/// short escapes, `\u00XX` for the remaining control characters, and the
/// character itself otherwise.
pub open spec fn json_escape_char(c: char) -> Seq<char> {
    if c == '"' {
        seq!['\\', '"']
    } else if c == '\\' {
        seq!['\\', '\\']
    } else if c == '\u{8}' {
        seq!['\\', 'b']
    } else if c == '\t' {
        seq!['\\', 't']
    } else if c == '\n' {
        seq!['\\', 'n']
    } else if c == '\u{c}' {
        seq!['\\', 'f']
    } else if c == '\r' {
        seq!['\\', 'r']
    } else if (c as u32) < 0x20 {
        seq!['\\', 'u', '0', '0', hex_char(c as u32 as int / 16), hex_char(c as u32 as int % 16)]
    } else {
        seq![c]
    }
}

/// A whole text as it is written inside a JSON string literal.
pub open spec fn json_escape(s: Seq<char>) -> Seq<char>
    decreases s.len(),
{
    if s.len() == 0 {
        Seq::empty()
    } else {
        json_escape_char(s[0]) + json_escape(s.drop_first())
    }
}

/// The JSON body of a publish call: an object with the single field
/// `text` holding the content.
pub open spec fn spec_publish_body(content: Seq<char>) -> Seq<char> {
    "{\"text\":\""@ + json_escape(content) + "\"}"@
}

/// The `Authorization` header value presenting `token` as a bearer token.
pub open spec fn spec_bearer_header(token: Seq<char>) -> Seq<char> {
    "Bearer "@ + token
}

/// What `/post_home` decides to do with a submission.
#[derive(Debug)]
pub enum PostDecision {
    /// The session is not authenticated: answer so, publish nothing.
    NotAuthenticated,
    /// Issue exactly one publish call with this body and header.
    Publish { body: String, authorization: String },
}

/// Abstract view of a publish decision.
pub enum PostDecisionView {
    /// The session is not authenticated.
    NotAuthenticated,
    /// Issue exactly one publish call with this body and header.
    Publish { body: Seq<char>, authorization: Seq<char> },
}

impl View for PostDecision {
    type V = PostDecisionView;

    open spec fn view(&self) -> PostDecisionView {
        match self {
            PostDecision::NotAuthenticated => PostDecisionView::NotAuthenticated,
            PostDecision::Publish { body, authorization } => PostDecisionView::Publish {
                body: body@,
                authorization: authorization@,
            },
        }
    }
}

/// What `/post_home` does for a session in state `s` and submitted
/// `content`: nothing without authentication, otherwise one publish call
/// carrying the content and the stored access token.
pub open spec fn spec_post_decide(s: SessionView, content: Seq<char>) -> PostDecisionView {
    if s.is_authenticated && s.access_token is Some {
        PostDecisionView::Publish {
            body: spec_publish_body(content),
            authorization: spec_bearer_header(s.access_token->0),
        }
    } else {
        PostDecisionView::NotAuthenticated
    }
}

fn hex_digit(d: u32) -> (c: char)
    requires
        d < 16,
    ensures
        c == hex_char(d as int),
{
    if d == 0 {
        '0'
    } else if d == 1 {
        '1'
    } else if d == 2 {
        '2'
    } else if d == 3 {
        '3'
    } else if d == 4 {
        '4'
    } else if d == 5 {
        '5'
    } else if d == 6 {
        '6'
    } else if d == 7 {
        '7'
    } else if d == 8 {
        '8'
    } else if d == 9 {
        '9'
    } else if d == 10 {
        'a'
    } else if d == 11 {
        'b'
    } else if d == 12 {
        'c'
    } else if d == 13 {
        'd'
    } else if d == 14 {
        'e'
    } else {
        'f'
    }
}

/// Appends the JSON escape of `c` to `out`.
fn append_json_escape_char(out: &mut String, c: char)
    ensures
        final(out)@ == old(out)@ + json_escape_char(c),
{
    if c == '"' {
        push_char(out, '\\');
        push_char(out, '"');
    } else if c == '\\' {
        push_char(out, '\\');
        push_char(out, '\\');
    } else if c == '\u{8}' {
        push_char(out, '\\');
        push_char(out, 'b');
    } else if c == '\t' {
        push_char(out, '\\');
        push_char(out, 't');
    } else if c == '\n' {
        push_char(out, '\\');
        push_char(out, 'n');
    } else if c == '\u{c}' {
        push_char(out, '\\');
        push_char(out, 'f');
    } else if c == '\r' {
        push_char(out, '\\');
        push_char(out, 'r');
    } else if (c as u32) < 0x20 {
        let code = c as u32;
        push_char(out, '\\');
        push_char(out, 'u');
        push_char(out, '0');
        push_char(out, '0');
        push_char(out, hex_digit(code / 16));
        push_char(out, hex_digit(code % 16));
    } else {
        push_char(out, c);
    }
    proof {
        assert(final(out)@ =~= old(out)@ + json_escape_char(c));
    }
}

/// Escapes `content` as the inside of a JSON string literal.
fn append_json_escaped(out: &mut String, content: &str)
    ensures
        final(out)@ == old(out)@ + json_escape(content@),
{
    let n = content.unicode_len();
    let mut i: usize = 0;
    proof {
        assert(out@ =~= out@ + json_escape(content@.take(0)));
    }
    while i < n
        invariant
            n == content@.len(),
            i <= n,
            out@ == old(out)@ + json_escape(content@.take(i as int)),
        decreases n - i,
    {
        let c = content.get_char(i);
        proof {
            lemma_json_escape_take_step(content@, i as int);
        }
        append_json_escape_char(out, c);
        i = i + 1;
    }
    proof {
        assert(content@.take(n as int) =~= content@);
    }
}

/// Escaping a prefix one character longer appends that character's escape.
proof fn lemma_json_escape_take_step(s: Seq<char>, i: int)
    requires
        0 <= i < s.len(),
    ensures
        json_escape(s.take(i + 1)) == json_escape(s.take(i)) + json_escape_char(s[i]),
    decreases i,
{
    if i == 0 {
        assert(s.take(1) =~= seq![s[0]]);
        assert(s.take(1).drop_first() =~= Seq::<char>::empty());
        assert(json_escape(Seq::<char>::empty()) == Seq::<char>::empty());
        assert(json_escape(s.take(1)) == json_escape_char(s[0]) + Seq::<char>::empty());
        assert(json_escape_char(s[0]) + Seq::<char>::empty() =~= json_escape_char(s[0]));
        assert(s.take(0) =~= Seq::<char>::empty());
        assert(json_escape(s.take(0)) + json_escape_char(s[0]) =~= json_escape_char(s[0]));
    } else {
        lemma_json_escape_take_step(s.drop_first(), i - 1);
        assert(s.take(i + 1).drop_first() =~= s.drop_first().take(i));
        assert(s.take(i).drop_first() =~= s.drop_first().take(i - 1));
        assert(s.take(i + 1)[0] == s[0]);
        assert(s.take(i)[0] == s[0]);
        assert(s.drop_first()[i - 1] == s[i]);
        assert(json_escape(s.take(i + 1)) == json_escape_char(s[0]) + json_escape(
            s.drop_first().take(i),
        ));
        assert(json_escape(s.take(i)) == json_escape_char(s[0]) + json_escape(
            s.drop_first().take(i - 1),
        ));
        assert(json_escape_char(s[0]) + (json_escape(s.drop_first().take(i - 1))
            + json_escape_char(s[i])) =~= (json_escape_char(s[0]) + json_escape(
            s.drop_first().take(i - 1),
        )) + json_escape_char(s[i]));
    }
}

/// Builds the JSON body of a publish call for `content`.
pub fn publish_body(content: &str) -> (r: String)
    ensures
        r@ == spec_publish_body(content@),
{
    let mut out = "{\"text\":\"".to_owned();
    append_json_escaped(&mut out, content);
    out.append("\"}");
    proof {
        assert(out@ =~= spec_publish_body(content@));
    }
    out
}

/// Decides what `/post_home` does: publish through the stored access
/// token when authenticated, answer "not authenticated" otherwise. The
/// session itself is left untouched.
pub fn post_home_decide(s: &Session, content: &str) -> (d: PostDecision)
    ensures
        d@ == spec_post_decide(s@, content@),
{
    if s.is_authenticated {
        match &s.access_token {
            Some(token) => {
                let body = publish_body(content);
                let mut authorization = "Bearer ".to_owned();
                authorization.append(token.as_str());
                PostDecision::Publish { body, authorization }
            },
            None => PostDecision::NotAuthenticated,
        }
    } else {
        PostDecision::NotAuthenticated
    }
}

/// Reads the provider's answer to a publish call: success exactly for a
/// 2xx status, any other status reported as a failure carrying it.
pub fn publish_outcome(status: u16) -> (r: Result<(), AppError>)
    ensures
        r is Ok <==> 200 <= status < 300,
        !(200 <= status < 300) ==> (r matches Err(e) && e.0 == ErrorKind::PublishFailed(status)),
{
    if 200 <= status && status < 300 {
        Ok(())
    } else {
        Err(AppError(ErrorKind::PublishFailed(status)))
    }
}

} // verus!
