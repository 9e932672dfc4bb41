use centerdevice::client::search::{search_request, NamedSearch, Representations, Search};
use centerdevice::client::users::{collections_request, users_request, UsersQuery};
use centerdevice::encoding::push_json_str;
use centerdevice::http::{Method, RequestBody};
use centerdevice::{Client, ClientCredentials, Token};

#[test]
fn empty_search_json() {
    assert_eq!(Search::new().to_json(), "{\"action\":\"search\",\"params\":{\"query\":{},\"filter\":{}}}");
    assert_eq!(Search::default().to_json(), Search::new().to_json());
}

#[test]
fn full_search_json() {
    let s = Search::new()
        .filenames(vec!["a.pdf".to_string()])
        .tags(vec!["x".to_string(), "y".to_string()])
        .fulltext("hello \"world\"")
        .named_searches(NamedSearch::PublicCollections);
    assert_eq!(
        s.to_json(),
        "{\"action\":\"search\",\"params\":{\"query\":{\"text\":\"hello \\\"world\\\"\"},\"filter\":{\"filenames\":[\"a.pdf\"],\"tags\":[\"x\",\"y\"]},\"named\":[{\"name\":\"public-collections\",\"params\":{\"include\":true}}]}}"
    );
}

#[test]
fn search_request_posts_json() {
    let client = Client::with_token("example.com", ClientCredentials::new("id", "pw"), Token::new("tok".to_string(), "r".to_string()));
    let r = search_request(&client, &Search::new().tags(vec!["t".to_string()]));
    assert_eq!(r.method, Method::Post);
    match r.body {
        RequestBody::Bytes(b) => assert_eq!(
            String::from_utf8(b).unwrap(),
            "{\"action\":\"search\",\"params\":{\"query\":{},\"filter\":{\"tags\":[\"t\"]}}}"
        ),
        _ => panic!("expected a byte body"),
    }
}

#[test]
fn json_string_escapes() {
    let mut out = String::new();
    push_json_str(&mut out, "a\"b\\c\nd\u{1}é");
    assert_eq!(out, "\"a\\\"b\\\\c\\nd\\u0001é\"");
}

#[test]
fn representations_available() {
    let r = Representations {
        pdf: "yes".to_string(),
        fulltext: "yes".to_string(),
        jpg: "no".to_string(),
        png: "no".to_string(),
        mp4: "yes".to_string(),
    };
    assert_eq!(r.available(), vec!["pdf".to_string(), "fulltext".to_string(), "mp4".to_string()]);
}

#[test]
fn users_and_collections_requests() {
    let client = Client::with_token("example.com", ClientCredentials::new("id", "pw"), Token::new("tok".to_string(), "r".to_string()));
    let r = users_request(&client, &UsersQuery { all: true });
    assert_eq!(r.url, "https://api.example.com/v2/users");
    match r.body {
        RequestBody::Form(f) => assert_eq!(f, vec![("all".to_string(), "true".to_string())]),
        _ => panic!("expected a form"),
    }
    let c = collections_request(&client);
    assert_eq!(c.url, "https://api.example.com/v2/collections");
}
