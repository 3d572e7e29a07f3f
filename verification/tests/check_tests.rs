use nitrous::check::ResultSink;
use nitrous::check::check_url;
use nitrous::check::classify;
use nitrous::nitrous::Nitrous;
use nitrous::proxy::ProxyType;

#[test]
fn classify_statuses() {
    assert!(classify(200));
    assert!(!classify(404));
    assert!(!classify(0));
    assert!(!classify(301));
    assert!(!classify(500));
}

#[test]
fn check_urls() {
    assert_eq!(
        check_url(ProxyType::Http, "AAAABBBBCCCCDDDD"),
        "http://discordapp.com/api/v6/entitlements/gift-codes/AAAABBBBCCCCDDDD\
         ?with_application=false&with_subscription_plan=true"
    );
    assert_eq!(
        check_url(ProxyType::Socks5, "AAAABBBBCCCCDDDD"),
        "https://discordapp.com/api/v6/entitlements/gift-codes/AAAABBBBCCCCDDDD\
         ?with_application=false&with_subscription_plan=true"
    );
    assert_eq!(
        check_url(ProxyType::Tor, "x"),
        "https://discordapp.com/api/v6/entitlements/gift-codes/x\
         ?with_application=false&with_subscription_plan=true"
    );
}

#[test]
fn record_valid_and_invalid() {
    let mut sink = ResultSink::new();
    assert_eq!(sink.valid_count(), 0);
    assert_eq!(sink.invalid_count(), 0);
    sink.record(String::from("goodcode"), 200);
    sink.record(String::from("badcode"), 404);
    sink.record(String::from("deadproxy"), 0);
    assert_eq!(sink.valid_count(), 1);
    assert_eq!(sink.invalid_count(), 2);
    assert_eq!(sink.valid_codes(), &vec![String::from("goodcode")]);
    assert_eq!(
        sink.invalid_codes(),
        &vec![String::from("badcode"), String::from("deadproxy")]
    );
}

#[test]
fn check_all_accepted() {
    let codes = vec![String::from("aaaa"), String::from("bbbb"), String::from("cccc")];
    let statuses = vec![200u16, 200u16, 200u16];
    let sink = Nitrous::check(&codes, &statuses);
    assert_eq!(sink.valid_count(), 3);
    assert_eq!(sink.invalid_count(), 0);
    assert_eq!(sink.valid_codes(), &codes);
    assert!(sink.invalid_codes().is_empty());
}

#[test]
fn check_all_rejected() {
    let codes = vec![String::from("aaaa"), String::from("bbbb"), String::from("cccc")];
    let statuses = vec![404u16, 404u16, 404u16];
    let sink = Nitrous::check(&codes, &statuses);
    assert_eq!(sink.valid_count(), 0);
    assert_eq!(sink.invalid_count(), 3);
    assert_eq!(sink.invalid_codes(), &codes);
    assert!(sink.valid_codes().is_empty());
}

#[test]
fn check_counts_sum_to_input() {
    let codes = vec![
        String::from("one"),
        String::from("two"),
        String::from("three"),
        String::from("four"),
        String::from("five"),
    ];
    let statuses = vec![200u16, 0u16, 404u16, 200u16, 503u16];
    let sink = Nitrous::check(&codes, &statuses);
    assert_eq!(sink.valid_count() + sink.invalid_count(), codes.len());
    assert_eq!(sink.valid_codes(), &vec![String::from("one"), String::from("four")]);
    assert_eq!(
        sink.invalid_codes(),
        &vec![String::from("two"), String::from("three"), String::from("five")]
    );
}

#[test]
fn check_each_code_in_exactly_one_sink() {
    let codes = vec![String::from("p"), String::from("q"), String::from("r")];
    let statuses = vec![200u16, 404u16, 200u16];
    let sink = Nitrous::check(&codes, &statuses);
    for code in &codes {
        let in_valid = sink.valid_codes().iter().filter(|c| *c == code).count();
        let in_invalid = sink.invalid_codes().iter().filter(|c| *c == code).count();
        assert_eq!(in_valid + in_invalid, 1);
    }
}

#[test]
fn check_nothing() {
    let sink = Nitrous::check(&Vec::new(), &Vec::new());
    assert_eq!(sink.valid_count(), 0);
    assert_eq!(sink.invalid_count(), 0);
}
