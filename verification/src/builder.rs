//! The per-document build step and the path conventions of the output
//! tree.
//!
//! A rebuild renders every document of every collection: the document text
//! becomes HTML, the collection template and then the base template are
//! applied by literal placeholder substitution, and the result is written
//! under the output root as `<collection>/<stem>.html`. The filesystem
//! walking and writing live outside the library; these functions compute
//! the paths and the exact bytes to write.

use vstd::prelude::*;

use crate::render::spec_markdown_to_html;
use crate::render::markdown_to_html;
use crate::text::spec_replace;
use crate::text::replace_all;

verus! {

/// The placeholder a template's content is substituted for.
pub open spec fn content_placeholder() -> Seq<char> {
    "{{ content }}"@
}

/// The placeholder the site title is substituted for.
pub open spec fn title_placeholder() -> Seq<char> {
    "{{ title }}"@
}

/// The fixed site title substituted into the base template.
pub open spec fn site_title() -> Seq<char> {
    "My Site"@
}

/// The text after both templates are applied: the content placeholder of
/// the collection template is replaced by `content`, the result fills the
/// content placeholder of the base template, and the title placeholder of
/// that result is replaced by the site title.
pub open spec fn spec_apply_template(template: Seq<char>, base: Seq<char>, content: Seq<char>) -> Seq<
    char,
> {
    spec_replace(
        spec_replace(base, content_placeholder(), spec_replace(template, content_placeholder(), content)),
        title_placeholder(),
        site_title(),
    )
}

/// Apply the collection template and then the base template to rendered
/// content, by literal substring substitution of the two placeholders.
pub fn apply_template(template: &str, base: &str, content: &str) -> (r: String)
    ensures
        r@ == spec_apply_template(template@, base@, content@),
{
    proof {
        reveal_strlit("{{ content }}");
        reveal_strlit("{{ title }}");
    }
    let collection_content = replace_all(template, "{{ content }}", content);
    let merged = replace_all(base, "{{ content }}", collection_content.as_str());
    replace_all(merged.as_str(), "{{ title }}", "My Site")
}

/// The exact bytes of one output page: the document rendered to HTML with
/// both templates applied.
pub fn render_page(markdown: &str, template: &str, base: &str) -> (r: String)
    ensures
        r@ == spec_apply_template(template@, base@, spec_markdown_to_html(markdown@)),
{
    let html = markdown_to_html(markdown);
    apply_template(template, base, html.as_str())
}

/// Rebuild is idempotent: a page rendered again from unchanged document
/// text and unchanged templates is byte-identical to the previous
/// rendering.
pub proof fn lemma_rebuild_idempotent(
    md1: Seq<char>,
    t1: Seq<char>,
    b1: Seq<char>,
    md2: Seq<char>,
    t2: Seq<char>,
    b2: Seq<char>,
)
    requires
        md1 == md2,
        t1 == t2,
        b1 == b2,
    ensures
        spec_apply_template(t1, b1, spec_markdown_to_html(md1)) == spec_apply_template(
            t2,
            b2,
            spec_markdown_to_html(md2),
        ),
{
}

/// The full build output for one collection: for each source document,
/// given as its file stem and its text, exactly one output file — named
/// `<stem>.html` under the collection's output directory — holding the
/// rendered page, in input order.
pub fn build_collection(
    output_dir: &str,
    docs: &Vec<(String, String)>,
    template: &str,
    base: &str,
) -> (r: Vec<(String, String)>)
    ensures
        r@.len() == docs@.len(),
        forall|k: int|
            0 <= k < docs@.len() ==> r@[k].0@ == output_dir@ + "/"@ + docs@[k].0@ + ".html"@
                && r@[k].1@ == spec_apply_template(
                template@,
                base@,
                spec_markdown_to_html(docs@[k].1@),
            ),
{
    let mut out: Vec<(String, String)> = Vec::new();
    let mut i: usize = 0;
    while i < docs.len()
        invariant
            i <= docs@.len(),
            out@.len() == i,
            forall|k: int|
                0 <= k < i ==> out@[k].0@ == output_dir@ + "/"@ + docs@[k].0@ + ".html"@
                    && out@[k].1@ == spec_apply_template(
                    template@,
                    base@,
                    spec_markdown_to_html(docs@[k].1@),
                ),
        decreases docs@.len() - i,
    {
        let path = page_output_path(output_dir, docs[i].0.as_str());
        let page = render_page(docs[i].1.as_str(), template, base);
        out.push((path, page));
        i = i + 1;
    }
    out
}

/// The configured collection names, in build order.
pub fn collection_names() -> (r: Vec<&'static str>)
    ensures
        r@.len() == 2,
        r@[0]@ == "pages"@,
        r@[1]@ == "projects"@,
{
    let mut v: Vec<&'static str> = Vec::new();
    v.push("pages");
    v.push("projects");
    v
}

/// The content directory of a collection.
pub fn content_dir_path(collection: &str) -> (r: String)
    ensures
        r@ == "content/"@ + collection@,
{
    let mut s = String::new();
    s.append("content/");
    s.append(collection);
    s
}

/// The output directory of a collection.
pub fn output_dir_path(collection: &str) -> (r: String)
    ensures
        r@ == "output/"@ + collection@,
{
    let mut s = String::new();
    s.append("output/");
    s.append(collection);
    s
}

/// The template file of a collection, named after it.
pub fn collection_template_name(collection: &str) -> (r: String)
    ensures
        r@ == collection@ + ".html"@,
{
    let mut s = String::new();
    s.append(collection);
    s.append(".html");
    s
}

/// Where a named template file lives.
pub fn template_file_path(template_name: &str) -> (r: String)
    ensures
        r@ == "templates/"@ + template_name@,
{
    let mut s = String::new();
    s.append("templates/");
    s.append(template_name);
    s
}

/// The base template file applied to every page.
pub fn base_template_path() -> (r: &'static str)
    ensures
        r@ == "templates/base.html"@,
{
    "templates/base.html"
}

/// The output file of a document: its stem under the collection's output
/// directory, with an `.html` extension.
pub fn page_output_path(output_dir: &str, stem: &str) -> (r: String)
    ensures
        r@ == output_dir@ + "/"@ + stem@ + ".html"@,
{
    let mut s = String::new();
    s.append(output_dir);
    s.append("/");
    s.append(stem);
    s.append(".html");
    s
}

} // verus!
