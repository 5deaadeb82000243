use gray_matter::Pod;
use pichu::markdown::markdown_from_parts;
use pichu::parse_markdown;
use pichu::Error;
use pichu::FileWrite;
use pichu::Glob;
use pichu::Markdown;
use pichu::MarkdownContext;
use pichu::MarkdownError;
use std::path::PathBuf;

#[derive(Debug)]
struct Blog {
    title: String,
}

const HELLO_WORLD: &str = "---\ntitle: Hello, world\n---\nThis is the first post.\n";

fn blog(pod: &Pod) -> Result<Blog, serde_json::Error> {
    let value: serde_json::Value = pod.deserialize()?;
    let title: String = serde_json::from_value(value["title"].clone())?;
    Ok(Blog { title })
}

fn read_fixture(path: &PathBuf) -> Result<String, std::io::Error> {
    match path.to_str() {
        Some("examples/content/blog/hello-world.md") => Ok(HELLO_WORLD.to_string()),
        Some("examples/content/about.md") => Ok("---\ntitle: About\n---\n# About\n".to_string()),
        Some("examples/content/bare.md") => Ok("# No front matter here\n".to_string()),
        _ => Err(std::io::Error::new(
            std::io::ErrorKind::NotFound,
            "no such file",
        )),
    }
}

fn render(text: &str) -> String {
    let context = MarkdownContext::new();
    context.render(text)
}

fn parse(path: &str, text: &str) -> Result<Markdown<Blog>, MarkdownError> {
    let context = MarkdownContext::new();
    parse_markdown(&PathBuf::from(path), Ok(text.to_string()), &context, &blog)
}

#[test]
fn test_render_each_all() {
    let dir = PathBuf::from("pichu_test_render_each_all");
    let context = MarkdownContext::new();

    let (parsed, each) = Glob::new(vec![PathBuf::from("examples/content/blog/hello-world.md")])
        .parse_markdown(&context, read_fixture, blog)
        .expect("the post parses")
        .render_each(
            |blog| format!("<h1>{}</h1>", blog.frontmatter.title),
            |blog| dir.join(format!("blog/{}.html", blog.basename)),
        );
    let (_, all) = parsed.render_all(
        |posts| format!("<p>Number of posts: {}</p>", posts.len()),
        dir.join("blog.html"),
    );

    assert_eq!(each.len(), 1);
    assert_eq!(each[0].path, dir.join("blog/hello-world.html"));
    assert_eq!(each[0].contents, "<h1>Hello, world</h1>".to_string());
    assert_eq!(all.path, dir.join("blog.html"));
    assert_eq!(all.contents, "<p>Number of posts: 1</p>".to_string());
}

#[test]
fn test_try_render_each_all() {
    #[derive(Debug)]
    enum RenderError {
        MissingFrontmatter,
        NoPosts,
    }

    let dir = PathBuf::from("pichu_test_try_render_each_all");
    let context = MarkdownContext::new();

    let (parsed, each) = Glob::new(vec![PathBuf::from("examples/content/blog/hello-world.md")])
        .parse_markdown(&context, read_fixture, blog)
        .expect("the post parses")
        .try_render_each(
            |blog| {
                if blog.frontmatter.title.is_empty() {
                    return Err(RenderError::MissingFrontmatter);
                }
                Ok(format!("<h1>{}</h1>", blog.frontmatter.title))
            },
            |blog| dir.join(format!("blog/{}.html", blog.basename)),
        )
        .expect("the post renders");
    let (_, all) = parsed
        .try_render_all(
            |posts| {
                if posts.is_empty() {
                    return Err(RenderError::NoPosts);
                }
                Ok(format!("<p>Number of posts: {}</p>", posts.len()))
            },
            dir.join("blog.html"),
        )
        .expect("the list renders");

    assert_eq!(each.len(), 1);
    let FileWrite { path, contents } = &each[0];
    assert_eq!(path, &dir.join("blog/hello-world.html"));
    assert_eq!(contents, &"<h1>Hello, world</h1>".to_string());
    assert_eq!(all.path, dir.join("blog.html"));
    assert_eq!(all.contents, "<p>Number of posts: 1</p>".to_string());
}

#[test]
fn markdown_with_front_matter_parses() {
    let item = parse("content/greeting.md", "---\ntitle: Hello\n---\n# Hi").expect("parses");
    assert_eq!(item.frontmatter.title, "Hello");
    assert_eq!(item.basename, "greeting");
    assert_eq!(item.markdown, "# Hi");
    assert_eq!(
        item.html,
        "<h1><a href=\"#hi\" aria-hidden=\"true\" class=\"anchor\" id=\"hi\"></a>Hi</h1>\n"
    );
    assert!(item.html.contains("<h1>"));
    assert!(item.html.contains("Hi</h1>"));
}

#[test]
fn markdown_without_front_matter_is_refused() {
    match parse("content/bare.md", "# Hi\n\nNo block above.\n") {
        Err(MarkdownError::MissingFrontmatter(path)) => {
            assert_eq!(path, PathBuf::from("content/bare.md"))
        }
        other => panic!("unexpected: {:?}", other),
    }
}

#[test]
fn markdown_with_an_empty_block_is_refused() {
    match parse("content/empty.md", "---\n---\nbody\n") {
        Err(MarkdownError::MissingFrontmatter(path)) => {
            assert_eq!(path, PathBuf::from("content/empty.md"))
        }
        other => panic!("unexpected: {:?}", other),
    }
}

#[test]
fn empty_text_is_refused() {
    match parse("content/nothing.md", "") {
        Err(MarkdownError::MissingFrontmatter(path)) => {
            assert_eq!(path, PathBuf::from("content/nothing.md"))
        }
        other => panic!("unexpected: {:?}", other),
    }
}

#[test]
fn front_matter_of_the_wrong_shape_is_refused() {
    match parse("content/odd.md", "---\ntitle: [1, 2]\n---\nbody\n") {
        Err(MarkdownError::DeserializeFrontmatter(path, cause)) => {
            assert_eq!(path, PathBuf::from("content/odd.md"));
            assert!(cause.to_string().contains("expected a string"));
        }
        other => panic!("unexpected: {:?}", other),
    }
}

#[test]
fn a_path_without_a_stem_is_refused() {
    match parse("content/..", "---\ntitle: Hello\n---\nbody\n") {
        Err(MarkdownError::NoFileStem(path)) => assert_eq!(path, PathBuf::from("content/..")),
        other => panic!("unexpected: {:?}", other),
    }
}

#[test]
fn a_bad_block_comes_before_a_missing_stem() {
    match parse("..", "---\ntitle: [1]\n---\nbody\n") {
        Err(MarkdownError::DeserializeFrontmatter(path, _)) => {
            assert_eq!(path, PathBuf::from(".."))
        }
        other => panic!("unexpected: {:?}", other),
    }
}

#[test]
fn a_failed_read_is_handed_on() {
    let context = MarkdownContext::new();
    let failed = std::io::Error::new(std::io::ErrorKind::NotFound, "gone");
    let result = parse_markdown(&PathBuf::from("content/gone.md"), Err(failed), &context, &blog);
    match result {
        Err(MarkdownError::IO(e)) => {
            assert_eq!(e.kind(), std::io::ErrorKind::NotFound);
            assert_eq!(e.to_string(), "gone");
        }
        other => panic!("unexpected: {:?}", other),
    }
}

#[test]
fn the_stem_drops_the_last_extension_only() {
    let item = parse("a/b/archive.tar.gz", "---\ntitle: T\n---\nx").expect("parses");
    assert_eq!(item.basename, "archive.tar");
    let item = parse("a/b/.hidden", "---\ntitle: T\n---\nx").expect("parses");
    assert_eq!(item.basename, ".hidden");
    let item = parse("plain", "---\ntitle: T\n---\nx").expect("parses");
    assert_eq!(item.basename, "plain");
}

#[test]
fn the_body_follows_the_block() {
    let item = parse(
        "post.md",
        "---\ntitle: T\ntags: [a, b]\n---\n\nFirst.\n\nSecond.\n",
    )
    .expect("parses");
    assert_eq!(item.frontmatter.title, "T");
    assert_eq!(item.markdown, "First.\n\nSecond.");
    assert_eq!(item.html, "<p>First.</p>\n<p>Second.</p>\n");
}

#[test]
fn raw_html_passes_through() {
    assert_eq!(render("<div class=\"x\">hi</div>\n"), "<div class=\"x\">hi</div>\n");
}

#[test]
fn no_tag_is_filtered() {
    assert_eq!(
        render("<script>alert(1)</script>\n"),
        "<script>alert(1)</script>\n"
    );
    assert_eq!(render("<title>x</title>\n"), "<title>x</title>\n");
}

#[test]
fn a_script_in_the_body_passes_through() {
    let item = parse(
        "content/post.md",
        "---\ntitle: Hello\n---\n<script>x</script>",
    )
    .expect("parses");
    assert_eq!(item.frontmatter.title, "Hello");
    assert!(item.html.contains("<script>x</script>"));
}

#[test]
fn an_item_is_made_from_its_parts() {
    let context = MarkdownContext::new();
    let mut data = Pod::new_hash();
    data.insert("title".to_string(), "From parts".to_string())
        .expect("a hash takes a key");
    let item = markdown_from_parts(
        &PathBuf::from("content/parts.md"),
        Some(data),
        "*body*".to_string(),
        &context,
        &blog,
    )
    .expect("parses");
    assert_eq!(item.frontmatter.title, "From parts");
    assert_eq!(item.basename, "parts");
    assert_eq!(item.markdown, "*body*");
    assert_eq!(item.html, "<p><em>body</em></p>\n");
}

#[test]
fn parts_without_front_matter_are_refused() {
    let context = MarkdownContext::new();
    let result = markdown_from_parts(
        &PathBuf::from("content/parts.md"),
        None,
        "body".to_string(),
        &context,
        &blog,
    );
    match result {
        Err(MarkdownError::MissingFrontmatter(path)) => {
            assert_eq!(path, PathBuf::from("content/parts.md"))
        }
        other => panic!("unexpected: {:?}", other),
    }
}

#[test]
fn the_list_fails_with_the_error_of_the_failing_file() {
    let context = MarkdownContext::new();
    let result = Glob::new(vec![
        PathBuf::from("examples/content/about.md"),
        PathBuf::from("examples/content/bare.md"),
        PathBuf::from("examples/content/blog/hello-world.md"),
    ])
    .parse_markdown_cause(&context, read_fixture, blog);
    match result {
        Err(MarkdownError::MissingFrontmatter(path)) => {
            assert_eq!(path, PathBuf::from("examples/content/bare.md"))
        }
        other => panic!("unexpected: {:?}", other.map(|parsed| parsed.into_vec())),
    }
}

#[test]
fn the_list_with_its_cause_parses_every_file() {
    let context = MarkdownContext::new();
    let items = Glob::new(vec![PathBuf::from("examples/content/about.md")])
        .parse_markdown_cause(&context, read_fixture, blog)
        .expect("parses")
        .into_vec();
    assert_eq!(items.len(), 1);
    assert_eq!(items[0].frontmatter.title, "About");
    assert_eq!(items[0].basename, "about");
}

#[test]
fn strikethrough_is_on() {
    assert_eq!(render("~~gone~~\n"), "<p><del>gone</del></p>\n");
}

#[test]
fn tables_are_on() {
    let html = render("| a | b |\n|---|---|\n| 1 | 2 |\n");
    assert!(html.starts_with("<table>"));
    assert!(html.contains("<th>a</th>"));
    assert!(html.contains("<td>2</td>"));
}

#[test]
fn superscript_is_on() {
    assert_eq!(render("e = mc^2^\n"), "<p>e = mc<sup>2</sup></p>\n");
}

#[test]
fn footnotes_are_on() {
    let html = render("Hi[^1].\n\n[^1]: A note.\n");
    assert!(html.contains("class=\"footnote-ref\""));
    assert!(html.contains("A note."));
}

#[test]
fn description_lists_are_on() {
    let html = render("Term\n\n: Details\n");
    assert!(html.contains("<dl>"));
    assert!(html.contains("<dt>Term</dt>"));
}

#[test]
fn punctuation_is_typographic() {
    assert_eq!(
        render("'Hello,' \"world\" ...\n"),
        "<p>\u{2018}Hello,\u{2019} \u{201c}world\u{201d} \u{2026}</p>\n"
    );
}

#[test]
fn headings_get_an_id() {
    assert_eq!(
        render("## Two words\n"),
        "<h2><a href=\"#two-words\" aria-hidden=\"true\" class=\"anchor\" id=\"two-words\"></a>Two words</h2>\n"
    );
}

#[test]
fn fenced_code_is_highlighted() {
    let html = render("```rust\nfn main() {}\n```\n");
    assert!(html.starts_with("<pre class=\"syntax-highlighting\"><code class=\"language-rust\">"));
    assert!(html.contains("<span class=\""));
    assert!(html.ends_with("</code></pre>\n"));
}

#[test]
fn rendering_is_the_same_every_time() {
    let text = "# A\n\n```rust\nlet x = \"y\";\n```\n\n| a |\n|---|\n| b |\n";
    let first = render(text);
    let second = render(text);
    assert_eq!(first, second);
}

#[test]
fn every_file_of_a_list_is_parsed() {
    let context = MarkdownContext::new();
    let items = Glob::new(vec![
        PathBuf::from("examples/content/blog/hello-world.md"),
        PathBuf::from("examples/content/about.md"),
    ])
    .parse_markdown(&context, read_fixture, blog)
    .expect("both parse")
    .into_vec();
    assert_eq!(items.len(), 2);
    assert_eq!(items[0].frontmatter.title, "Hello, world");
    assert_eq!(items[0].basename, "hello-world");
    assert_eq!(items[0].markdown, "This is the first post.");
    assert_eq!(items[0].html, "<p>This is the first post.</p>\n");
    assert_eq!(items[1].frontmatter.title, "About");
    assert_eq!(items[1].basename, "about");
}

#[test]
fn one_bad_file_fails_the_list() {
    let context = MarkdownContext::new();
    let result = Glob::new(vec![
        PathBuf::from("examples/content/about.md"),
        PathBuf::from("examples/content/bare.md"),
        PathBuf::from("examples/content/blog/hello-world.md"),
    ])
    .parse_markdown(&context, read_fixture, blog);
    match result {
        Err(Error::Parse(cause)) => {
            assert_eq!(cause, "MissingFrontmatter(\"examples/content/bare.md\")")
        }
        other => panic!("unexpected: {:?}", other.map(|parsed| parsed.into_vec())),
    }
}

#[test]
fn an_unreadable_file_fails_the_list() {
    let context = MarkdownContext::new();
    let result = Glob::new(vec![PathBuf::from("examples/content/missing.md")])
        .parse_markdown(&context, read_fixture, blog);
    match result {
        Err(Error::Parse(cause)) => assert!(cause.starts_with("IO(")),
        other => panic!("unexpected: {:?}", other.map(|parsed| parsed.into_vec())),
    }
}
