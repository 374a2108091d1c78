//! Rendering issue text from markdown to HTML, GitHub-flavoured.
use vstd::prelude::*;
use crate::model::ReqBody;

verus! {

#[verifier::external_type_specification]
#[verifier::external_body]
pub struct ExMarkdownMessage(markdown::message::Message);

/// The HTML that the markdown crate compiles a text to under its GFM options.
pub uninterp spec fn gfm_html(markdown: Seq<char>) -> Seq<char>;

/// Calls `markdown::to_html_with_options` with `markdown::Options::gfm()`. Claims that the
/// call succeeds, as the crate documents for any input when MDX is off (GFM leaves it off),
/// and that its HTML is the one `gfm_html` names for the argument; what that HTML is, is
/// left to the name.
#[verifier::external_body]
fn markdown_gfm_to_html(md: &str) -> (r: Result<String, markdown::message::Message>)
    ensures
        r is Ok,
        r matches Ok(h) ==> h@ == gfm_html(md@),
{
    markdown::to_html_with_options(md, &markdown::Options::gfm())
}

/// The GitHub-flavoured HTML for a markdown text.
pub fn render_markdown(md: &str) -> (r: String)
    ensures
        r@ == gfm_html(md@),
{
    match markdown_gfm_to_html(md) {
        Ok(h) => h,
        Err(_) => {
            proof {
                assert(false);
            }
            String::new()
        },
    }
}

/// The issue with its markdown body replaced by the body's HTML; owner, repository
/// and title stay as they are.
pub fn render_issue(issue: ReqBody) -> (r: ReqBody)
    ensures
        r.owner@ == issue.owner@,
        r.repo@ == issue.repo@,
        r.title@ == issue.title@,
        r.body@ == gfm_html(issue.body@),
{
    let html = render_markdown(issue.body.as_str());
    ReqBody { owner: issue.owner, repo: issue.repo, title: issue.title, body: html }
}

} // verus!
