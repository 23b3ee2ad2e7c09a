use tsck::animation::{AnimationEasing, AnimationState, AnimationPayload};
use tsck::app_tokenizer::{Lexer, Token};
use tsck::http::{
    get_content_type, parse_header_line, parse_path_and_query, parse_query, url_decode, Method,
    Response,
};
use tsck::process::{CmdrLog, CycleApps, LogType, ProcessBuilder};
use tsck::smartobject::{item_of, SmartObjects};
use tsck::store::page_count;
use tsck::textures::TextureScanner;
use tsck::textutil::{str_contains, url_encode};
use tsck::winconf::{
    calculate_panel_dimensions, webview_bounds, ToolbarPanel, ToolbarPosition, UiPoint, WindowSrc,
    WindowSize,
};
use tsck::youtube::{get_youtube_id, Thumbnail, Thumbnails};

#[test]
fn test_tokenizer() {
    let input = ["T:GOOGLE", "R:WEBSCKET*", "TSCK", "CR:WHOCH*", "TR:WWS*"];
    for s in input {
        let mut lexer = Lexer::new(s);
        while let Some(token) = lexer.next_token() {
            match token {
                Token::Lhs(value) => println!("  LHS: {}", value),
                Token::Rhs(value) => println!("  RHS: {}", value),
            }
        }
    }
}

#[test]
fn app_entries_split_at_the_first_colon() {
    let mut lexer = Lexer::new("T:GOOGLE");
    assert_eq!(lexer.next_token(), Some(Token::Lhs("T".to_string())));
    assert_eq!(lexer.next_token(), Some(Token::Rhs("GOOGLE".to_string())));
    assert_eq!(lexer.next_token(), None);

    let mut lexer = Lexer::new("TSCK");
    assert_eq!(lexer.next_token(), Some(Token::Lhs("TSCK".to_string())));
    assert_eq!(lexer.next_token(), None);

    let mut lexer = Lexer::new("a:b:c");
    assert_eq!(lexer.next_token(), Some(Token::Lhs("a".to_string())));
    assert_eq!(lexer.next_token(), Some(Token::Rhs("b:c".to_string())));
}

#[test]
fn test_repo_smartobject() {
    let so = SmartObjects::new("store-root", 8080, &vec!["a.psb".to_string()]);
    assert_eq!(so.files.len(), 1);
}

#[test]
fn catalog_items_carry_png_thumbnails() {
    let it = item_of("poster.psb");
    assert_eq!(it.id, 0);
    assert_eq!(it.name, "poster.psb");
    assert_eq!(it.thumb, "poster.png");
    let it = item_of("plain.txt");
    assert_eq!(it.thumb, "plain.txt.png");
}

#[test]
fn catalog_filter_and_pages() {
    let names: Vec<String> = ["alpha.psb", "beta.psb", "alpine.psb"]
        .iter()
        .map(|s| s.to_string())
        .collect();
    let mut so = SmartObjects::new("root", 1, &names);
    let hits = so.filter("alp");
    assert_eq!(hits.len(), 2);
    assert_eq!(hits[0].name, "alpha.psb");
    assert_eq!(hits[1].name, "alpine.psb");

    let page = so.filter_chunk("", 0, 2);
    assert_eq!(page.total_page, 2);
    assert_eq!(page.current_items.len(), 2);
    let page = so.filter_chunk("", 1, 2);
    assert_eq!(page.current_items.len(), 1);
    let page = so.filter_chunk("", 9, 2);
    assert_eq!(page.current_items.len(), 0);

    so.remove_file("beta.psb");
    assert_eq!(so.get_all_files().len(), 2);
    assert_eq!(so.to_psb("thumbs/alpha.png"), Some("alpha.psb".to_string()));
    // the file-stem rule: a leading-dot name is its own stem, trailing
    // separators are ignored, and dot-components have no stem
    assert_eq!(so.to_psb(".png"), Some(".png.psb".to_string()));
    assert_eq!(so.to_psb("dir/"), Some("dir.psb".to_string()));
    assert_eq!(so.to_psb(".."), None);
    assert_eq!(so.to_psb("."), None);
    assert_eq!(so.to_psb(""), None);
}

#[test]
fn texture_thumbnails_rename_eps_files() {
    assert_eq!(TextureScanner::thumbnail_name("water.EPS"), "water.jpg");
    assert_eq!(TextureScanner::thumbnail_name("water.eps"), "water.jpg");
    assert_eq!(TextureScanner::thumbnail_name("water.png"), "water.png");
    assert_eq!(TextureScanner::thumbnail_name("noext"), "noext");
    assert_eq!(
        TextureScanner::thumbnail_path("root", "water.eps"),
        "root/.thumbnail/water.jpg"
    );
}

#[test]
fn percent_encoding_round_trip() {
    assert_eq!(url_encode("abc-_.~"), "abc-_.~");
    assert_eq!(url_encode("a b/c"), "a%20b%2Fc");
    assert_eq!(url_decode("a%20b%2Fc"), "a b/c");
    assert_eq!(url_decode("a+b"), "a b");
    assert_eq!(url_decode("%41"), "A");
    assert_eq!(url_decode("%zz"), "%zz");
    assert_eq!(url_decode("%4"), "%4");
    assert_eq!(url_decode(url_encode("hello world & more").as_str()), "hello world & more");
}

#[test]
fn substring_search_is_exact() {
    assert!(str_contains("alpine", "alp"));
    assert!(str_contains("alpine", ""));
    assert!(!str_contains("alpine", "alq"));
    assert!(!str_contains("al", "alpine"));
}

#[test]
fn request_targets_split_into_path_and_query() {
    let (path, query) = parse_path_and_query("/todos?done=1&name=a%20b");
    assert_eq!(path, "/todos");
    assert_eq!(
        query,
        vec![
            ("done".to_string(), "1".to_string()),
            ("name".to_string(), "a b".to_string()),
        ]
    );
    let (path, query) = parse_path_and_query("/plain");
    assert_eq!(path, "/plain");
    assert!(query.is_empty());
    assert_eq!(
        parse_query("k=v&flag"),
        vec![
            ("k".to_string(), "v".to_string()),
            ("flag".to_string(), "".to_string()),
        ]
    );
}

#[test]
fn header_lines_split_and_lowercase() {
    assert_eq!(
        parse_header_line("Content-Length: 42"),
        Some(("content-length".to_string(), "42".to_string()))
    );
    assert_eq!(
        parse_header_line("  X-Thing :  a b  "),
        Some(("x-thing".to_string(), "a b".to_string()))
    );
    assert_eq!(parse_header_line("no colon here"), None);
}

#[test]
fn methods_and_content_types_are_recognized() {
    assert_eq!(Method::from_bytes(b"GET"), Some(Method::GET));
    assert_eq!(Method::from_bytes(b"PATCH"), Some(Method::PATCH));
    assert_eq!(Method::from_bytes(b"get"), None);
    assert_eq!(get_content_type("png"), "image/png");
    assert_eq!(get_content_type("html"), "text/html; charset=utf-8");
    assert_eq!(get_content_type("weird"), "application/octet-stream");
    assert_eq!(Response::not_found(), Response::Status(404, "Not Found"));
    assert_eq!(Response::bad_request(), Response::Status(400, "Bad Request"));
    assert_eq!(
        Response::internal_error(),
        Response::Status(500, "Internal Server Error")
    );
    assert_eq!(Response::json("{}"), Response::Json("{}"));
    assert_eq!(Response::text_owned("x".to_string()), Response::TextOwned("x".to_string()));
}

#[test]
fn page_counts_round_up() {
    assert_eq!(page_count(0, 10), 0);
    assert_eq!(page_count(1, 10), 1);
    assert_eq!(page_count(10, 10), 1);
    assert_eq!(page_count(11, 10), 2);
}

#[test]
fn process_builder_collects_arguments() {
    let b = ProcessBuilder::new("app", "prog", "/tmp")
        .arg("-a")
        .args(&vec!["-b".to_string(), "-c".to_string()]);
    assert_eq!(b.app_name, "app");
    assert_eq!(b.program, "prog");
    assert_eq!(b.work_dir, "/tmp");
    assert_eq!(b.args, vec!["-a".to_string(), "-b".to_string(), "-c".to_string()]);
    let log = CmdrLog::pid("app", 42);
    assert_eq!(log.log_type, LogType::Pid);
    assert_eq!(log.pid, Some(42));
    let log = CmdrLog::stdout(LogType::Stderr, "app", "boom");
    assert_eq!(log.content, Some("boom".to_string()));
}

#[test]
fn app_cycler_wraps_around() {
    let mut c = CycleApps::new(vec!["a".to_string(), "b".to_string()]);
    assert_eq!(c.next(), 1);
    assert_eq!(c.next(), 0);
    assert_eq!(c.get_app(0), Some(&"a".to_string()));
    assert_eq!(c.get_app(5), None);
}

#[test]
fn animation_builder_fills_every_field() {
    let p = AnimationPayload::builder("main")
        .to_size((300, 200))
        .to_position((10, 20))
        .duration(150)
        .easing(AnimationEasing::EaseInOutCubic);
    assert_eq!(p.label, "main");
    assert_eq!(p.duration, 150);
    assert_eq!(p.to_size, Some((300, 200)));
    assert_eq!(p.to_pos, Some((10, 20)));
    assert_eq!(p.easing, AnimationEasing::EaseInOutCubic);

    let mut gate = AnimationState::new();
    assert!(!gate.is_running());
    assert!(gate.is_running());
    gate.animate_done();
    assert!(!gate.is_running());
}

#[test]
fn panel_geometry_respects_the_width_cap() {
    let panel = ToolbarPanel { max_width: Some(200), ..Default::default() };
    assert_eq!(calculate_panel_dimensions(1000, &panel), (200, 0));
    assert_eq!(calculate_panel_dimensions(300, &panel), (150, 0));
    let uncapped = ToolbarPanel::default();
    assert_eq!(calculate_panel_dimensions(1000, &uncapped), (1000, 0));

    let r = webview_bounds("panel", 1000, 600, &panel);
    assert_eq!(r.position, UiPoint { x: 0, y: 0 });
    assert_eq!((r.width, r.height), (200, 32));
    let v = webview_bounds("view", 1000, 600, &panel);
    assert_eq!((v.width, v.height), (1000, 600));

    assert_eq!(WindowSize::new(300, 200), WindowSize { width: 300, height: 200 });
    let src = WindowSrc::from_url("http://localhost:3000", "index");
    assert_eq!(
        src,
        WindowSrc::Web("http://localhost:3000".to_string(), "index".to_string())
    );
}

#[test]
fn video_ids_come_from_every_link_shape() {
    assert_eq!(
        get_youtube_id("https://youtu.be/-sePewgzVfU?t=10"),
        Some("-sePewgzVfU".to_string())
    );
    assert_eq!(
        get_youtube_id("https://www.youtube.com/watch?v=-sePewgzVfU&x=1"),
        Some("-sePewgzVfU".to_string())
    );
    assert_eq!(
        get_youtube_id("https://www.youtube.com/embed/-sePewgzVfU?rel=0"),
        Some("-sePewgzVfU".to_string())
    );
    assert_eq!(get_youtube_id("-sePewgzVfU"), Some("-sePewgzVfU".to_string()));
    assert_eq!(get_youtube_id("  -sePewgzVfU  "), Some("-sePewgzVfU".to_string()));
    assert_eq!(get_youtube_id("not a video"), None);
    assert_eq!(get_youtube_id("shortid"), None);
}

#[test]
fn best_thumbnail_is_picked_by_quality() {
    let t = |u: &str| Thumbnail { url: u.to_string(), width: 1, height: 1 };
    let thumbs = Thumbnails {
        default: Some(t("d")),
        medium: Some(t("m")),
        high: None,
        standard: Some(t("s")),
        maxres: None,
    };
    assert_eq!(thumbs.get_highest_quality().unwrap().url, "s");
    let all = thumbs.get_all_sorted();
    let urls: Vec<&str> = all.iter().map(|t| t.url.as_str()).collect();
    assert_eq!(urls, vec!["s", "m", "d"]);
    let empty = Thumbnails { default: None, medium: None, high: None, standard: None, maxres: None };
    assert!(empty.get_highest_quality().is_none());
    assert!(empty.get_all_sorted().is_empty());
}
