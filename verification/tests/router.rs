use ntex_mqtt::topic::check_pattern;
use ntex_mqtt::types::{QoS, Readiness};
use ntex_mqtt::v5::codec::{Publish as PublishPacket, PublishAckReason, PublishProperties};
use ntex_mqtt::v5::publish::Publish;
use ntex_mqtt::v5::router::{Route, Router, RouterReady, RouterService};

fn packet(topic: &str, alias: Option<u16>) -> PublishPacket {
    let mut properties = PublishProperties::new();
    properties.topic_alias = alias;
    PublishPacket {
        dup: false,
        retain: false,
        qos: QoS::AtMostOnce,
        topic: topic.to_string(),
        packet_id: None,
        payload: b"payload".to_vec(),
        properties,
    }
}

fn one(pattern: &str) -> Vec<String> {
    vec![pattern.to_string()]
}

fn request(topic: &str, alias: Option<u16>) -> Publish {
    Publish::new(packet(topic, alias))
}

fn service() -> RouterService<String> {
    Router::new("default-factory")
        .resource(one("sensors/{id}/temp"), "temp-factory")
        .resource(one("x/y"), "xy-factory")
        .resource(one("a/{first}/{second}"), "two-factory")
        .finish()
        .new_service("default".to_string())
}

#[test]
fn router_lazy_creation() {
    let mut svc = service();
    assert_eq!(svc.len(), 3);
    assert_eq!(svc.handler(0), None);
    assert!(!svc.is_creating());
    assert_eq!(svc.poll_ready(&Vec::new(), Readiness::Ready), RouterReady::Ready);

    // the first publish has the handler made
    let first = match svc.call(request("sensors/1/temp", None)) {
        Route::Create(idx, req) => {
            assert_eq!(idx, 0);
            req
        }
        _ => panic!("the handler does not exist yet"),
    };
    assert_eq!(first.publish_topic(), "sensors/1/temp");
    assert_eq!(first.topic().get("id"), Some("1"));
    assert!(svc.is_creating());
    assert_eq!(svc.handler(0), None);

    // while it is being made the service is not ready
    assert_eq!(svc.poll_ready(&Vec::new(), Readiness::Ready), RouterReady::Creating);
    assert_eq!(svc.poll_ready(&vec![Readiness::Failed], Readiness::Failed), RouterReady::Creating);

    // the handler is ready
    svc.handler_created(0, Some("temp".to_string()));
    assert!(!svc.is_creating());
    assert_eq!(svc.handler(0), Some(&"temp".to_string()));
    assert_eq!(svc.poll_ready(&vec![Readiness::Ready], Readiness::Ready), RouterReady::Ready);

    // the next publish goes to it, and no second handler is made
    match svc.call(request("sensors/2/temp", None)) {
        Route::Handler(idx, req) => {
            assert_eq!(idx, 0);
            assert_eq!(req.topic().get("id"), Some("2"));
        }
        _ => panic!("the handler exists"),
    }
    assert!(!svc.is_creating());
    assert_eq!(svc.handler(0), Some(&"temp".to_string()));
    assert_eq!(svc.handler(1), None);
    assert_eq!(svc.handler(2), None);
    assert_eq!(svc.handler(3), None);
}

#[test]
fn router_construction_can_be_started_by_hand() {
    let mut svc = service();
    assert!(!svc.is_creating());
    match svc.create_handler(1, request("x/y", None)) {
        Route::Create(idx, req) => {
            assert_eq!(idx, 1);
            assert_eq!(req.publish_topic(), "x/y");
            assert_eq!(req.topic().len(), 0);
        }
        _ => panic!("a construction was started"),
    }
    assert!(svc.is_creating());
    assert_eq!(svc.poll_ready(&Vec::new(), Readiness::Ready), RouterReady::Creating);
    svc.handler_created(1, Some("xy".to_string()));
    assert!(!svc.is_creating());
    assert_eq!(svc.handler(1), Some(&"xy".to_string()));
}

#[test]
fn router_failed_creation_leaves_the_slot_empty() {
    let mut svc = service();
    match svc.call(request("x/y", None)) {
        Route::Create(1, _) => {}
        _ => panic!("the handler does not exist yet"),
    }
    assert!(svc.is_creating());
    svc.handler_created(1, None);
    assert!(!svc.is_creating());
    assert_eq!(svc.handler(1), None);
    // the next publish tries again
    match svc.call(request("x/y", None)) {
        Route::Create(1, _) => {}
        _ => panic!("the handler does not exist yet"),
    }
}

#[test]
fn router_topic_alias() {
    let mut svc = service();
    match svc.call(request("x/y", Some(7))) {
        Route::Create(idx, _) => assert_eq!(idx, 1),
        _ => panic!("the handler does not exist yet"),
    }
    svc.handler_created(1, Some("xy".to_string()));

    match svc.call(request("", Some(7))) {
        Route::Handler(idx, req) => {
            assert_eq!(idx, 1);
            assert_eq!(req.topic().get_ref(), "x/y");
            assert_eq!(req.publish_topic(), "");
            assert_eq!(req.packet().properties.topic_alias, Some(7));
            assert_eq!(req.packet().payload, b"payload".to_vec());
        }
        _ => panic!("the alias stands for x/y"),
    }
}

#[test]
fn router_topic_alias_keeps_what_the_match_captured() {
    let mut svc = service();
    match svc.call(request("a/one/two", Some(3))) {
        Route::Create(idx, req) => {
            assert_eq!(idx, 2);
            assert_eq!(req.topic().get("first"), Some("one"));
            assert_eq!(req.topic().get("second"), Some("two"));
        }
        _ => panic!("the handler does not exist yet"),
    }
    svc.handler_created(2, Some("two".to_string()));
    match svc.call(request("", Some(3))) {
        Route::Handler(idx, req) => {
            assert_eq!(idx, 2);
            assert_eq!(req.topic().get_ref(), "a/one/two");
            assert_eq!(req.topic().get("first"), Some("one"));
            assert_eq!(req.topic().get("second"), Some("two"));
        }
        _ => panic!("the alias stands for a/one/two"),
    }
    // the alias is paired anew
    match svc.call(request("sensors/5/temp", Some(3))) {
        Route::Create(0, _) => {}
        _ => panic!("the handler does not exist yet"),
    }
    match svc.call(request("", Some(3))) {
        Route::Create(idx, req) => {
            assert_eq!(idx, 0);
            assert_eq!(req.topic().get("id"), Some("5"));
        }
        _ => panic!("the alias stands for sensors/5/temp"),
    }
}

#[test]
fn router_default_route() {
    let mut svc = service();
    // no pattern matches
    match svc.call(request("unknown/topic", Some(4))) {
        Route::Default(req) => {
            assert_eq!(req.publish_topic(), "unknown/topic");
            assert_eq!(req.topic().get_ref(), "unknown/topic");
        }
        _ => panic!("no pattern matches"),
    }
    // the alias of a publish that matched nothing stands for nothing
    match svc.call(request("", Some(4))) {
        Route::Default(req) => assert_eq!(req.packet().properties.topic_alias, Some(4)),
        _ => panic!("the alias is unknown"),
    }
    // neither topic nor alias
    match svc.call(request("", None)) {
        Route::Default(_) => {}
        _ => panic!("nothing to route by"),
    }
    assert!(!svc.is_creating());
    assert_eq!(svc.default_handler(), "default");
}

#[test]
fn router_readiness_is_aggregated() {
    let svc = service();
    let r = Readiness::Ready;
    let p = Readiness::Pending;
    let f = Readiness::Failed;
    assert_eq!(svc.poll_ready(&vec![r, r, r], r), RouterReady::Ready);
    assert_eq!(svc.poll_ready(&vec![r, p, r], r), RouterReady::Pending);
    assert_eq!(svc.poll_ready(&vec![r, r, r], p), RouterReady::Pending);
    assert_eq!(svc.poll_ready(&vec![p, f, f], r), RouterReady::Failed(1));
    assert_eq!(svc.poll_ready(&vec![f], p), RouterReady::Failed(0));
    assert_eq!(svc.poll_ready(&vec![p, r], f), RouterReady::Failed(2));
    assert_eq!(svc.poll_ready(&Vec::new(), f), RouterReady::Failed(0));
    assert_eq!(svc.poll_ready(&Vec::new(), p), RouterReady::Pending);
}

#[test]
fn router_factory_keeps_the_factories() {
    let factory = Router::new(0u32).resource(one("a"), 1).resource(one("b/{x}"), 2).finish();
    assert_eq!(factory.len(), 2);
    assert_eq!(factory.default_factory(), &0);
    assert_eq!(factory.factory(0), Some(&1));
    assert_eq!(factory.factory(1), Some(&2));
    assert_eq!(factory.factory(2), None);
    let mut one: RouterService<u8> = factory.new_service(9);
    let mut two: RouterService<u8> = factory.new_service(8);
    assert_eq!(one.default_handler(), &9);
    assert_eq!(two.default_handler(), &8);
    // each service has handlers of its own
    match one.call(request("a", None)) {
        Route::Create(0, _) => {}
        _ => panic!("the handler does not exist yet"),
    }
    one.handler_created(0, Some(1));
    assert_eq!(one.handler(0), Some(&1));
    assert_eq!(two.handler(0), None);
    match two.call(request("b/1", None)) {
        Route::Create(1, _) => {}
        _ => panic!("the handler does not exist yet"),
    }
}

#[test]
fn router_resource_with_several_patterns() {
    let router = Router::new(0u8)
        .resource(vec!["a/{x}".to_string(), "b/{y}/c".to_string(), "d".to_string()], 1)
        .resource(Vec::new(), 2)
        .resource(one("e"), 3);
    assert_eq!(router.len(), 3);
    let mut svc: RouterService<u8> = router.finish().new_service(9);
    assert_eq!(svc.len(), 3);
    match svc.call(request("a/1", None)) {
        Route::Create(idx, req) => {
            assert_eq!(idx, 0);
            assert_eq!(req.topic().get("x"), Some("1"));
        }
        _ => panic!("the first pattern matches"),
    }
    svc.handler_created(0, Some(1));
    match svc.call(request("b/2/c", None)) {
        Route::Handler(idx, req) => {
            assert_eq!(idx, 0);
            assert_eq!(req.topic().get("y"), Some("2"));
        }
        _ => panic!("the second pattern matches"),
    }
    match svc.call(request("d", None)) {
        Route::Handler(0, _) => {}
        _ => panic!("the third pattern matches"),
    }
    match svc.call(request("e", None)) {
        Route::Create(2, _) => {}
        _ => panic!("the pattern of the third resource matches"),
    }
    match svc.call(request("f", None)) {
        Route::Default(_) => {}
        _ => panic!("no pattern matches"),
    }
}

#[test]
fn router_without_resources_routes_to_the_default() {
    let mut svc: RouterService<u8> = Router::new(0u8).finish().new_service(1);
    assert_eq!(svc.len(), 0);
    match svc.call(request("a/b", Some(1))) {
        Route::Default(_) => {}
        _ => panic!("no pattern is registered"),
    }
}

#[test]
fn publish_ack_reports_success() {
    let req = request("a", None);
    assert_eq!(req.packet(), &packet("a", None));
    let ack = req.ack();
    assert_eq!(ack.reason_code, PublishAckReason::Success);
    assert_eq!(ack.properties, Vec::new());
    assert_eq!(ack.reason_string, None);
}

#[test]
fn publish_set_topic_replaces_the_path() {
    let mut req = request("a/b", None);
    assert_eq!(req.topic().get_ref(), "a/b");
    req.set_topic(ntex_router::Path::new("c/d".to_string()));
    assert_eq!(req.topic().get_ref(), "c/d");
    assert_eq!(req.publish_topic(), "a/b");
}

#[test]
fn patterns_are_told_from_other_text() {
    // literal text
    for p in ["", "/", "a", "a/b/c", "/a/b/", "sensors/+/temp", "a*b/c", "a*/b", "x/a}", "}", "a(b/c[", "caf\u{e9}/(x"] {
        assert!(check_pattern(p), "{:?}", p);
    }
    assert!(check_pattern(&"a(".repeat(40000)));
    // text with parameters
    for p in [
        "sensors/{id}/temp", "{a}", "{_a1}/{B}", "a{b}", "{b}a", "{a}{b}", "v{val}/{val2}/index.html",
        "file/{file}.{ext}", "x}{a}y}/b", "{a}x(/b(", "{a}/{a}", "{a}/", "/{a}", "caf\u{e9}/{x}", "{a}\u{e9}",
        "{a}.txt", "{a}-b",
    ] {
        assert!(check_pattern(p), "{:?}", p);
    }
    // a pattern that takes the rest of a topic
    for p in ["{tail}*", "v/{tail}*", "{a}{b}*", "a/*", "*", "abc*", "a.b-c*"] {
        assert!(check_pattern(p), "{:?}", p);
    }
    // no pattern
    for p in [
        "{", "{}", "{1a}", "{a:.*}", "{a-b}", "{a.b}", "x/{a/b}", "x/{a", "{a}{a}", "a{b}c{b}", "{a})",
        "{a}(", "{a}[x]", "{a}**", "{a}*b", "{a}+", "{a}?", "{a}|b", "{a}\\", "a)*", "a[*", "a**", "{a}}",
        "x/{a}{", "{a{b}}", "{\u{e9}}",
    ] {
        assert!(!check_pattern(p), "{:?}", p);
    }
    // what becomes a regular expression has a longest length
    assert!(check_pattern(&format!("{{a}}{}", "b".repeat(4093))));
    assert!(!check_pattern(&format!("{{a}}{}", "b".repeat(4094))));
    assert!(check_pattern(&format!("{{a}}{}/c", "b".repeat(4093))));
    assert!(!check_pattern(&format!("c/{}{{a}}/c", "b".repeat(4094))));
    assert!(check_pattern(&format!("{}*", "b".repeat(4095))));
    assert!(!check_pattern(&format!("{}*", "b".repeat(4096))));
    assert!(check_pattern(&format!("{}*/c", "b".repeat(4096))));
}

#[test]
fn every_pattern_is_taken_by_the_table() {
    let patterns = [
        "", "/", "a", "a/b/c", "/a/b/", "sensors/{id}/temp", "sensors/+/temp", "{a}", "{_a1}/{B}",
        "a*b/c", "//", "a//b", "{a}/", "/{a}", "#", "a/#", "a{b}", "{b}a", "{a}{b}",
        "v{val}/{val2}/index.html", "file/{file}.{ext}", "x}{a}y}/b", "{a}x(/b(", "{a}/{a}",
        "{a}.txt", "{tail}*", "v/{tail}*", "{a}{b}*", "a/*", "*", "abc*", "a.b-c*", "a(b/c[",
    ];
    for p in patterns {
        assert!(check_pattern(p));
        let mut svc: RouterService<u8> = Router::new(0u8).resource(one(p), 1).finish().new_service(1);
        let _ = svc.call(request("a/b", None));
        let _ = svc.call(request("/", None));
        let _ = svc.call(request("sensors/1/temp", None));
        let _ = svc.call(request("file/a.txt", None));
        let _ = svc.call(request("v/a/b/c", None));
    }
    let mut router = Router::new(0u8);
    for p in patterns {
        router = router.resource(one(p), 1);
    }
    let mut svc: RouterService<u8> = router.finish().new_service(1);
    match svc.call(request("sensors/+/temp", None)) {
        Route::Create(idx, _) => assert_eq!(idx, 5),
        _ => panic!("a pattern matches"),
    }
    let mut svc: RouterService<u8> =
        Router::new(0u8).resource(one("file/{file}.{ext}"), 1).finish().new_service(1);
    match svc.call(request("file/report.txt", None)) {
        Route::Create(idx, req) => {
            assert_eq!(idx, 0);
            assert_eq!(req.topic().get("file"), Some("report"));
            assert_eq!(req.topic().get("ext"), Some("txt"));
        }
        _ => panic!("the pattern matches"),
    }
    let mut svc: RouterService<u8> =
        Router::new(0u8).resource(one("v/{tail}*"), 1).finish().new_service(1);
    match svc.call(request("v/a/b/c", None)) {
        Route::Create(idx, req) => {
            assert_eq!(idx, 0);
            assert_eq!(req.topic().get("tail"), Some("a/b/c"));
        }
        _ => panic!("the pattern matches"),
    }
}

fn many_parameters() -> String {
    // as many parameters as a segment can hold
    let mut many = String::new();
    let mut i = 0;
    loop {
        let next = format!("{{a{}}}", i);
        if many.chars().count() + next.len() > 4096 {
            break;
        }
        many.push_str(&next);
        i += 1;
    }
    assert!(i > 600);
    many
}

fn take(pattern: &str) -> RouterService<u8> {
    assert!(check_pattern(pattern));
    Router::new(0u8).resource(one(pattern), 1).finish().new_service(1)
}

#[test]
fn most_parameters_are_taken_by_the_table() {
    let _ = take(&many_parameters());
}

#[test]
fn most_parameters_match_a_topic() {
    let mut svc = take(&many_parameters());
    let _ = svc.call(request("a/b", None));
}

#[test]
fn most_parameters_match_their_own_text() {
    let p = many_parameters();
    let mut svc = take(&p);
    let _ = svc.call(request(&p, None));
}

#[test]
fn longest_text_behind_a_parameter_is_taken() {
    let p = format!("{{a}}{}", "\u{10348}".repeat(4093));
    let mut svc = take(&p);
    let _ = svc.call(request("a/b", None));
    let _ = svc.call(request(&p, None));
}

#[test]
fn longest_text_before_a_parameter_is_taken() {
    let wide = "\u{10348}";
    let p = format!("{}{{a}}/{}{{a}}", wide.repeat(4093), wide.repeat(4093));
    let mut svc = take(&p);
    let _ = svc.call(request("a/b", None));
    let _ = svc.call(request(&p, None));
}

#[test]
fn longest_text_before_the_rest_is_taken() {
    let p = format!("{}*", "\u{10348}".repeat(4095));
    let mut svc = take(&p);
    let _ = svc.call(request("a/b", None));
    let _ = svc.call(request(&p, None));
}

#[test]
fn longest_name_is_taken() {
    let p = format!("{{{}}}", "a".repeat(4094));
    let mut svc = take(&p);
    let _ = svc.call(request("a/b", None));
    let _ = svc.call(request(&p, None));
}

fn short_texts(alphabet: &[char], max_len: usize) -> Vec<String> {
    let mut all = vec![String::new()];
    let mut last = vec![String::new()];
    for _ in 0..max_len {
        let mut next = Vec::new();
        for text in &last {
            for c in alphabet {
                let mut longer = text.clone();
                longer.push(*c);
                next.push(longer);
            }
        }
        all.extend(next.iter().cloned());
        last = next;
    }
    all
}

#[test]
fn short_patterns_are_taken_by_the_table() {
    short_patterns(&['a', '/', '{', '}', '*', '_', '1', '(', '.']);
}

#[test]
fn short_patterns_with_other_signs_are_taken_by_the_table() {
    short_patterns(&['b', '/', '{', '}', '*', 'a', ')', '-', '\\']);
}

#[test]
fn short_patterns_with_more_signs_are_taken_by_the_table() {
    short_patterns(&['c', '/', '{', '}', '*', '?', '+', '|', ']']);
}

fn short_patterns(alphabet: &[char]) {
    let mut accepted = 0;
    let mut with_parameter = 0;
    let mut router = Router::new(0u8);
    for text in short_texts(alphabet, 5) {
        if !check_pattern(&text) {
            continue;
        }
        accepted += 1;
        if text.contains('{') {
            with_parameter += 1;
        }
        let mut svc: RouterService<u8> =
            Router::new(0u8).resource(one(&text), 1).finish().new_service(1);
        let _ = svc.call(request("a/1", None));
        let _ = svc.call(request(&text, None));
        if accepted % 16 == 0 {
            router = router.resource(one(&text), 1);
        }
    }
    assert!(accepted > 10000);
    assert!(with_parameter > 50);
    let mut svc: RouterService<u8> = router.finish().new_service(1);
    for text in short_texts(alphabet, 3) {
        let _ = svc.call(request(&text, None));
    }
}
