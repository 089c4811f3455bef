use moonzoon::frontend::{Frontend, DEFAULT_BODY_CONTENT};

fn page(title: &str, head: &str, body: &str, first: &str, second: &str, id: &str) -> String {
    format!(
        r#"<!DOCTYPE html>
        <html lang="en">
        
        <head>
          <meta charset="utf-8" />
          <meta name="viewport" content="width=device-width, initial-scale=1, shrink-to-fit=no" />
          <title>{title}</title>
          <link rel="preload" href="/_api/pkg/frontend_bg_{id}.wasm" as="fetch" type="application/wasm" crossorigin>
          <link rel="modulepreload" href="/_api/pkg/frontend_{id}.js" crossorigin>
          {head}
        </head>
    
        <body>
          {body}
    
          <script type="text/javascript">
            {first}
            {second}
          </script>
    
          <script type="module">
            import init from '/_api/pkg/frontend_{id}.js';
            init('/_api/pkg/frontend_bg_{id}.wasm');
          </script>
        </body>
        
        </html>"#,
        title = title,
        head = head,
        body = body,
        first = first,
        second = second,
        id = id,
    )
}

#[test]
fn a_new_page_has_the_mount_point_and_nothing_else() {
    assert_eq!(DEFAULT_BODY_CONTENT, r#"<section id="app"></section>"#);
    let rendered = Frontend::new().render(0, "", "");
    assert_eq!(rendered, page("", "", r#"<section id="app"></section>"#, "", "", "0"));
}

#[test]
fn default_is_the_new_page() {
    assert_eq!(Frontend::default().render(5, "a", "b"), Frontend::new().render(5, "a", "b"));
}

#[test]
fn the_page_is_written_out_with_all_that_was_set() {
    let frontend = Frontend::new()
        .title("Chat example")
        .append_to_head("<style>html { color: lightgray; }</style>")
        .body_content("<main></main>");
    let rendered = frontend.render(
        123456789012345678901234567890,
        "class ReconnectingEventSource {}",
        "new ReconnectingEventSource('/sse');",
    );
    assert_eq!(
        rendered,
        page(
            "Chat example",
            "<style>html { color: lightgray; }</style>",
            "<main></main>",
            "class ReconnectingEventSource {}",
            "new ReconnectingEventSource('/sse');",
            "123456789012345678901234567890",
        )
    );
}

#[test]
fn the_title_is_replaced_and_the_head_grows() {
    let frontend = Frontend::new()
        .title("first")
        .title("second")
        .append_to_head("<a>")
        .append_to_head("<b>")
        .body_content("one")
        .body_content("two");
    assert_eq!(frontend.render(1, "x", "y"), page("second", "<a><b>", "two", "x", "y", "1"));
}

#[test]
fn the_build_id_stands_in_four_places() {
    let rendered = Frontend::new().render(987, "", "");
    assert_eq!(rendered.matches("987").count(), 4);
    assert!(rendered.contains("/_api/pkg/frontend_bg_987.wasm\" as=\"fetch\""));
    assert!(rendered.contains("init('/_api/pkg/frontend_bg_987.wasm');"));
}
