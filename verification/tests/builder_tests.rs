use sitegen::builder::apply_template;
use sitegen::builder::build_collection;
use sitegen::builder::base_template_path;
use sitegen::builder::collection_names;
use sitegen::builder::collection_template_name;
use sitegen::builder::content_dir_path;
use sitegen::builder::output_dir_path;
use sitegen::builder::page_output_path;
use sitegen::builder::render_page;
use sitegen::builder::template_file_path;

#[test]
fn template_substitution() {
    let out = apply_template(
        "<main>{{ content }}</main>",
        "<title>{{ title }}</title><body>{{ content }}</body>",
        "X",
    );
    assert_eq!(out, "<title>My Site</title><body><main>X</main></body>");
}

#[test]
fn template_substitution_replaces_every_occurrence() {
    let out = apply_template("{{ content }}|{{ content }}", "{{ content }}", "x");
    assert_eq!(out, "x|x");
}

#[test]
fn end_to_end_page_render() {
    // A document holding a heading and a link, wrapped in the collection
    // template and then the base template.
    let markdown = "# Hi\n[go](http://x)";
    let template = "<article>{{ content }}</article>";
    let base = "<html><head><title>{{ title }}</title></head><body>{{ content }}</body></html>";
    let page = render_page(markdown, template, base);
    assert_eq!(
        page,
        "<html><head><title>My Site</title></head><body><article><h1>Hi</h1>\n<a href=\"http://x\">go</a>\n</article></body></html>"
    );
    assert!(page.contains("<h1>Hi</h1>"));
    assert!(page.contains("<a href=\"http://x\">go</a>"));
}

#[test]
fn rebuild_is_byte_identical() {
    let markdown = "# Hi\nbody text\n[go](http://x)";
    let template = "<article>{{ content }}</article>";
    let base = "<body>{{ content }}</body>";
    let first = render_page(markdown, template, base);
    let second = render_page(markdown, template, base);
    assert_eq!(first.as_bytes(), second.as_bytes());
}

#[test]
fn collection_build_maps_each_document() {
    let docs = vec![
        ("hello".to_string(), "# Hi\n[go](http://x)".to_string()),
        ("about".to_string(), "text".to_string()),
    ];
    let out = build_collection(
        "output/pages",
        &docs,
        "<article>{{ content }}</article>",
        "<body>{{ content }}</body>",
    );
    assert_eq!(out.len(), 2);
    assert_eq!(out[0].0, "output/pages/hello.html");
    assert_eq!(
        out[0].1,
        "<body><article><h1>Hi</h1>\n<a href=\"http://x\">go</a>\n</article></body>"
    );
    assert_eq!(out[1].0, "output/pages/about.html");
    assert_eq!(out[1].1, "<body><article><p>text</p>\n</article></body>");
}

#[test]
fn collection_rebuild_is_byte_identical() {
    let docs = vec![("a".to_string(), "# T\nx".to_string())];
    let first = build_collection("output/pages", &docs, "{{ content }}", "{{ content }}");
    let second = build_collection("output/pages", &docs, "{{ content }}", "{{ content }}");
    assert_eq!(first, second);
}

#[test]
fn path_conventions() {
    let names = collection_names();
    assert_eq!(names, vec!["pages", "projects"]);
    assert_eq!(content_dir_path("pages"), "content/pages");
    assert_eq!(output_dir_path("pages"), "output/pages");
    assert_eq!(collection_template_name("pages"), "pages.html");
    assert_eq!(template_file_path("pages.html"), "templates/pages.html");
    assert_eq!(base_template_path(), "templates/base.html");
    assert_eq!(
        page_output_path("output/pages", "hello"),
        "output/pages/hello.html"
    );
}
