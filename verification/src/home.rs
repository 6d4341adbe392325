//! The landing page: HTML that branches on the authentication state. An
//! authenticated user sees the post form (and a logout button); an
//! anonymous visitor sees the login form and no post form.

use vstd::prelude::*;

use crate::session::Session;
use vstd::string::StringExecFns;

verus! {

/// The name shown to an authenticated user: the stored one, or a
/// placeholder when the profile fetch never supplied one.
pub open spec fn spec_display_name(username: Option<Seq<char>>) -> Seq<char> {
    match username {
        Some(u) => u,
        None => "unknown user"@,
    }
}

/// The body shown to an authenticated user: a greeting, the post form,
/// and the logout form.
pub open spec fn spec_authenticated_body(username: Option<Seq<char>>) -> Seq<char> {
    "<h1>Hey, "@ + spec_display_name(username)
        + "!</h1><form action=\"/post_home\" method=\"post\"><textarea name=\"content\" cols=\"30\" rows=\"10\"></textarea><br><input type=\"submit\" value=\"Post\"></form><form action=\"/logout\" method=\"post\"><button type=\"submit\">Disconnect</button></form>"@
}

/// The body shown to an anonymous visitor: a greeting and the login
/// form, with no post form.
pub open spec fn spec_anonymous_body() -> Seq<char> {
    "<h1>Welcome to Write2X!</h1><p>Here you can post that great thought without getting lost in the algorithms.</p><form action=\"/login\" method=\"post\"><button type=\"submit\">Connect</button></form>"@
}

/// The whole landing page for the given authentication state.
pub open spec fn spec_home_page(is_authenticated: bool, username: Option<Seq<char>>) -> Seq<char> {
    "<!DOCTYPE html><html lang=\"en\"><head><meta charset=\"UTF-8\"><title>Write2X</title></head><body>"@
        + (if is_authenticated {
        spec_authenticated_body(username)
    } else {
        spec_anonymous_body()
    }) + "</body></html>"@
}

/// The answer to a publish that went through.
pub open spec fn spec_posted_page() -> Seq<char> {
    "<h1>Posted to X</h1>"@
}

/// The answer to a publish attempted without authentication.
pub open spec fn spec_not_authenticated_page() -> Seq<char> {
    "<h1>Not authenticated</h1><p>You need to be authenticated to post</p>"@
}

/// Renders the answer to a publish that went through.
pub fn posted_page() -> (html: String)
    ensures
        html@ == spec_posted_page(),
{
    "<h1>Posted to X</h1>".to_owned()
}

/// Renders the answer to a publish attempted without authentication.
pub fn not_authenticated_page() -> (html: String)
    ensures
        html@ == spec_not_authenticated_page(),
{
    "<h1>Not authenticated</h1><p>You need to be authenticated to post</p>".to_owned()
}

/// Renders the landing page for the session's state.
pub fn render_home(s: &Session) -> (html: String)
    ensures
        html@ == spec_home_page(s@.is_authenticated, s@.username),
{
    let mut page =
        "<!DOCTYPE html><html lang=\"en\"><head><meta charset=\"UTF-8\"><title>Write2X</title></head><body>".to_owned();
    if s.is_authenticated {
        page.append("<h1>Hey, ");
        match &s.username {
            Some(u) => page.append(u.as_str()),
            None => page.append("unknown user"),
        }
        page.append(
            "!</h1><form action=\"/post_home\" method=\"post\"><textarea name=\"content\" cols=\"30\" rows=\"10\"></textarea><br><input type=\"submit\" value=\"Post\"></form><form action=\"/logout\" method=\"post\"><button type=\"submit\">Disconnect</button></form>",
        );
    } else {
        page.append(
            "<h1>Welcome to Write2X!</h1><p>Here you can post that great thought without getting lost in the algorithms.</p><form action=\"/login\" method=\"post\"><button type=\"submit\">Connect</button></form>",
        );
    }
    page.append("</body></html>");
    proof {
        assert(page@ =~= spec_home_page(s@.is_authenticated, s@.username));
    }
    page
}

} // verus!
