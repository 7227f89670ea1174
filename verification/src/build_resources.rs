//! The generated module of resource path constants: which constants, and
//! the source text that declares them.
use vstd::prelude::*;

use crate::text::{append_str, chars_of, owned, string_of};

verus! {

/// A constant's name paired with its value.
pub fn create_pair(str1: &str, str2: String) -> (res: (String, String))
    ensures
        res.0@ == str1@,
        res.1 == str2,
{
    (owned(str1), str2)
}

fn joined(a: &str, b: &str) -> (res: String)
    ensures
        res@ == a@ + b@,
{
    let mut out = chars_of(a);
    append_str(&mut out, b);
    string_of(out.as_slice())
}

/// The resource directories and files, by constant name.
pub open spec fn resource_paths() -> Seq<(Seq<char>, Seq<char>)> {
    seq![
        ("RESOURCES_ROOT_PATH"@, "resources"@),
        ("WEB_RESOURCES_PATH"@, "resources"@ + "/web_resources"@),
        ("HTML_PAGES_PATH"@, "resources"@ + "/web_resources"@ + "/html_pages"@),
        ("PAGE_SCRIPTS_PATH"@, "resources"@ + "/web_resources"@ + "/page_scripts"@),
        ("HTML_INDEX_PAGE_PATH"@, "resources"@ + "/web_resources"@ + "/html_pages"@ + "/index.html"@),
        ("WEB_SOCKET_JS_PATH"@, "resources"@ + "/web_resources"@ + "/page_scripts"@ + "/WebSocket.js"@),
    ]
}

/// The views of name and value pairs.
pub open spec fn pair_views(v: Seq<(String, String)>) -> Seq<(Seq<char>, Seq<char>)> {
    v.map_values(|p: (String, String)| (p.0@, p.1@))
}

pub fn create_resource_paths() -> (res: Vec<(String, String)>)
    ensures
        pair_views(res@) == resource_paths(),
{
    let resources_path = owned("resources");
    let web_resources_path = joined(resources_path.as_str(), "/web_resources");
    let html_pages_path = joined(web_resources_path.as_str(), "/html_pages");
    let page_scripts_path = joined(web_resources_path.as_str(), "/page_scripts");
    let html_index_page_path = joined(html_pages_path.as_str(), "/index.html");
    let web_socket_js_path = joined(page_scripts_path.as_str(), "/WebSocket.js");
    let mut out: Vec<(String, String)> = Vec::new();
    out.push(create_pair("RESOURCES_ROOT_PATH", resources_path));
    out.push(create_pair("WEB_RESOURCES_PATH", web_resources_path));
    out.push(create_pair("HTML_PAGES_PATH", html_pages_path));
    out.push(create_pair("PAGE_SCRIPTS_PATH", page_scripts_path));
    out.push(create_pair("HTML_INDEX_PAGE_PATH", html_index_page_path));
    out.push(create_pair("WEB_SOCKET_JS_PATH", web_socket_js_path));
    assert(pair_views(out@) =~= resource_paths());
    out
}

/// The text of the generated `mod.rs`.
pub fn prepare_mod_content() -> (res: String)
    ensures
        res@ == "\npub mod constants;\n"@,
{
    owned("\npub mod constants;\n")
}

/// The declaration of one string constant.
pub open spec fn constant_line(name: Seq<char>, value: Seq<char>) -> Seq<char> {
    "pub const "@ + name + ": &str = \""@ + value + "\";\n"@
}

/// The declarations of all the constants, one per line, in order.
pub open spec fn constants_text(pairs: Seq<(Seq<char>, Seq<char>)>) -> Seq<char>
    decreases pairs.len(),
{
    if pairs.len() == 0 {
        Seq::empty()
    } else {
        constants_text(pairs.drop_last()) + constant_line(pairs.last().0, pairs.last().1)
    }
}

pub fn prepare_constants_content(resources: Vec<(String, String)>) -> (res: String)
    ensures
        res@ == constants_text(pair_views(resources@)),
{
    let ghost all = pair_views(resources@);
    let mut out: Vec<char> = Vec::new();
    let mut i: usize = 0;
    while i < resources.len()
        invariant
            i <= resources@.len(),
            all == pair_views(resources@),
            out@ == constants_text(all.take(i as int)),
        decreases resources@.len() - i,
    {
        assert(all.take(i + 1).drop_last() =~= all.take(i as int));
        assert(all.take(i + 1).last() == all[i as int]);
        append_str(&mut out, "pub const ");
        append_str(&mut out, resources[i].0.as_str());
        append_str(&mut out, ": &str = \"");
        append_str(&mut out, resources[i].1.as_str());
        append_str(&mut out, "\";\n");
        assert(out@ =~= constants_text(all.take(i + 1)));
        i = i + 1;
    }
    assert(all.take(i as int) =~= all);
    string_of(out.as_slice())
}

} // verus!
