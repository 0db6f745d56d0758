use xkcd::client::{response_outcome, Plan, SaveJob, XkcdClient};
use xkcd::comic::{Comic, ComicResponse};
use xkcd::config::{Args, OutFormat};
use xkcd::decimal::push_decimal;
use xkcd::error::ComicError;
use xkcd::url_name::image_file_name;

const BODY: &str = r#"{"month": "1", "num": 2260, "link": "", "year": "2020", "news": "",
"safe_title": "Ksp 2", "transcript": "", "alt": "Also, the engines are made of \"yarn\".",
"img": "https://imgs.xkcd.com/comics/ksp_2.png", "title": "Ksp 2", "day": "5", "extra": [1, 2]}"#;

fn sample() -> Comic {
    Comic::new(
        "Ksp 2".to_string(),
        2260,
        "2020-1-5".to_string(),
        "Also, the engines are made of \"yarn\".".to_string(),
        "https://imgs.xkcd.com/comics/ksp_2.png".to_string(),
    )
}

fn args(num: Option<usize>, save: bool, output: OutFormat) -> Args {
    Args::new(num, 10, save, output).unwrap()
}

#[test]
fn decodes_and_maps_fields_verbatim() {
    let resp = ComicResponse::try_from(BODY.to_string()).unwrap();
    assert_eq!(resp.safe_title, "Ksp 2");
    let comic = Comic::from(resp);
    assert_eq!(comic, sample());
    assert_eq!(comic.date, "2020-1-5");
}

#[test]
fn missing_member_is_a_decode_error() {
    let body = BODY.replace("\"day\": \"5\", ", "");
    assert_eq!(ComicResponse::try_from(body), Err(ComicError::Decode));
}

#[test]
fn text_that_is_not_json_is_a_decode_error() {
    assert_eq!(ComicResponse::try_from("<html>404</html>".to_string()), Err(ComicError::Decode));
    assert_eq!(ComicResponse::try_from(String::new()), Err(ComicError::Decode));
    assert_eq!(ComicResponse::try_from("[1, 2]".to_string()), Err(ComicError::Decode));
}

#[test]
fn members_of_the_wrong_type_are_a_decode_error() {
    let quoted_num = BODY.replace("\"num\": 2260", "\"num\": \"2260\"");
    assert_eq!(ComicResponse::try_from(quoted_num), Err(ComicError::Decode));
    let negative = BODY.replace("\"num\": 2260", "\"num\": -4");
    assert_eq!(ComicResponse::try_from(negative), Err(ComicError::Decode));
    let fraction = BODY.replace("\"num\": 2260", "\"num\": 2.5");
    assert_eq!(ComicResponse::try_from(fraction), Err(ComicError::Decode));
    let null_title = BODY.replace("\"title\": \"Ksp 2\"", "\"title\": null");
    assert_eq!(ComicResponse::try_from(null_title), Err(ComicError::Decode));
}

#[test]
fn text_block_is_five_fixed_lines() {
    let c = sample();
    let expected = "Title: Ksp 2\nComic No: 2260\nDate: 2020-1-5\n\
Description: Also, the engines are made of \"yarn\".\n\
Image: https://imgs.xkcd.com/comics/ksp_2.png\n";
    assert_eq!(c.to_text(), expected);
    assert_eq!(c.to_text(), c.to_text());
    assert_eq!(c.render(OutFormat::Text), expected);
    assert_eq!(c.to_text().matches('\n').count(), 5);
}

#[test]
fn json_is_one_compact_object_line() {
    let c = sample();
    let expected = "{\"title\":\"Ksp 2\",\"num\":2260,\"date\":\"2020-1-5\",\
\"description\":\"Also, the engines are made of \\\"yarn\\\".\",\
\"image_url\":\"https://imgs.xkcd.com/comics/ksp_2.png\"}";
    assert_eq!(c.to_json(), expected);
    assert_eq!(c.render(OutFormat::Json), format!("{}\n", expected));
}

#[test]
fn json_round_trips() {
    let c = Comic::new(
        "Line\nbreak \\ and \u{e9}".to_string(),
        0,
        "2021-12-31".to_string(),
        "tab\there \"q\"".to_string(),
        "https://imgs.xkcd.com/comics/x.png".to_string(),
    );
    let v: serde_json::Value = serde_json::from_str(&c.to_json()).unwrap();
    let back = Comic::new(
        v["title"].as_str().unwrap().to_string(),
        v["num"].as_u64().unwrap() as usize,
        v["date"].as_str().unwrap().to_string(),
        v["description"].as_str().unwrap().to_string(),
        v["image_url"].as_str().unwrap().to_string(),
    );
    assert_eq!(back, c);
    assert_eq!(v.as_object().unwrap().len(), 5);
}

#[test]
fn file_name_is_last_path_segment() {
    let url = "https://imgs.xkcd.com/comics/foo.png".to_string();
    assert_eq!(image_file_name(&url), Ok("foo.png".to_string()));
}

#[test]
fn unusable_image_urls_are_rejected() {
    assert_eq!(image_file_name(&"not a url".to_string()), Err(ComicError::InvalidUrl));
    assert_eq!(image_file_name(&"https://imgs.xkcd.com/".to_string()), Err(ComicError::InvalidUrl));
    assert_eq!(image_file_name(&"mailto:someone@example.com".to_string()), Err(ComicError::InvalidUrl));
}

#[test]
fn metadata_urls() {
    let latest = XkcdClient::new(args(None, false, OutFormat::Text));
    assert_eq!(latest.metadata_url(), "https://xkcd.com/info.0.json");
    let one = XkcdClient::new(args(Some(42), false, OutFormat::Text));
    assert_eq!(one.metadata_url(), "https://xkcd.com/42/info.0.json");
    assert_eq!(one.timeout_secs(), 10);
}

#[test]
fn failed_fetch_ends_the_run_with_its_error() {
    let client = XkcdClient::new(args(None, true, OutFormat::Text));
    assert_eq!(client.plan(Err(ComicError::Network)), Err(ComicError::Network));
    assert_eq!(client.plan(Err(ComicError::Http(404))), Err(ComicError::Http(404)));
}

#[test]
fn plan_without_save() {
    let client = XkcdClient::new(args(None, false, OutFormat::Json));
    let plan = client.plan(Ok(BODY.to_string())).unwrap();
    assert_eq!(plan, Plan { comic: sample(), save: None, output: sample().render(OutFormat::Json) });
}

#[test]
fn plan_with_save() {
    let client = XkcdClient::new(args(Some(2260), true, OutFormat::Text));
    let plan = client.plan(Ok(BODY.to_string())).unwrap();
    let job = SaveJob {
        image_url: "https://imgs.xkcd.com/comics/ksp_2.png".to_string(),
        file_name: "ksp_2.png".to_string(),
    };
    assert_eq!(plan.save, Some(job));
    assert_eq!(plan.output, sample().to_text());
}

#[test]
fn plan_with_save_and_bad_image_url() {
    let client = XkcdClient::new(args(None, true, OutFormat::Text));
    let body = BODY.replace("https://imgs.xkcd.com/comics/ksp_2.png", "::nope");
    assert_eq!(client.plan(Ok(body.clone())), Err(ComicError::InvalidUrl));
    let quiet = XkcdClient::new(args(None, false, OutFormat::Text));
    assert!(quiet.plan(Ok(body)).is_ok());
}

#[test]
fn plan_with_undecodable_body() {
    let client = XkcdClient::new(args(None, true, OutFormat::Text));
    assert_eq!(client.plan(Ok("{}".to_string())), Err(ComicError::Decode));
}

#[test]
fn arguments_must_be_positive() {
    assert_eq!(Args::new(Some(0), 5, false, OutFormat::Text), Err(ComicError::Usage));
    assert_eq!(Args::new(None, 0, false, OutFormat::Text), Err(ComicError::Usage));
    let a = Args::new(Some(7), 5, true, OutFormat::Json).unwrap();
    assert_eq!(a, Args { num: Some(7), timeout: 5, save: true, output: OutFormat::Json });
}

#[test]
fn output_format_names() {
    assert_eq!(OutFormat::from_name("text"), Ok(OutFormat::Text));
    assert_eq!(OutFormat::from_name("json"), Ok(OutFormat::Json));
    assert_eq!(OutFormat::from_name("yaml"), Err(ComicError::Usage));
    assert_eq!(OutFormat::from_name("Text"), Err(ComicError::Usage));
}

#[test]
fn decimal_notation() {
    for n in [0usize, 9, 10, 1234567, usize::MAX] {
        let mut s = "n=".to_string();
        push_decimal(&mut s, n);
        assert_eq!(s, format!("n={}", n));
    }
}

#[test]
fn response_status_decides() {
    assert_eq!(response_outcome(200, "b".to_string()), Ok("b".to_string()));
    assert_eq!(response_outcome(299, "b".to_string()), Ok("b".to_string()));
    assert_eq!(response_outcome(404, "b".to_string()), Err(ComicError::Http(404)));
    assert_eq!(response_outcome(199, "b".to_string()), Err(ComicError::Http(199)));
    assert_eq!(response_outcome(503, String::new()), Err(ComicError::Http(503)));
}
