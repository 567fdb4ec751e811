use galileo::address::{Address, AddressOrAlmost};
use galileo::extract::{address_candidates, tokens_from};
use galileo::request::{Message, Request};
use galileo::responder::Responder;
use galileo::summary::mention_admins;
use galileo::value::Value;

fn address_text(fill: char, version: char) -> String {
    let mut text = String::from("penumbrav");
    text.push(version);
    text.push_str("t1");
    for _ in 0..126 {
        text.push(fill);
    }
    text
}

fn message(content: &str, guild_id: Option<u64>) -> Message {
    Message {
        id: 7,
        channel_id: 11,
        guild_id,
        author_id: 42,
        author_name: String::from("ada"),
        content: String::from(content),
    }
}

fn responder(cap: usize) -> Responder {
    Responder::new(cap, vec![Value { amount: 100, denom: String::from("upenumbra") }])
}

fn texts(addresses: &Vec<Address>) -> Vec<String> {
    addresses.iter().map(|a| a.as_str().to_string()).collect()
}

#[test]
fn candidates_are_found_left_to_right() {
    let first = address_text('q', '0');
    let second = address_text('l', '3');
    let text = format!("send to {} and {} please", first, second);
    assert_eq!(address_candidates(&text), Some(vec![first, second]));
}

#[test]
fn text_without_addresses_has_no_candidates() {
    assert_eq!(address_candidates("hello, any tokens today?"), Some(vec![]));
    let short = &address_text('q', '0')[..137];
    assert_eq!(address_candidates(short), Some(vec![]));
    let wrong_alphabet = address_text('b', '0');
    assert_eq!(address_candidates(&wrong_alphabet), Some(vec![]));
    let no_version = address_text('q', 'x');
    assert_eq!(address_candidates(&no_version), Some(vec![]));
}

#[test]
fn candidate_is_cut_out_of_surrounding_text() {
    let address = address_text('z', '1');
    let text = format!("xx{}qqqq", address);
    assert_eq!(address_candidates(&text), Some(vec![address]));
}

#[test]
fn tokens_follow_the_verdicts() {
    let a = address_text('q', '0');
    let b = address_text('p', '0');
    let c = address_text('z', '0');
    let tokens = tokens_from(&vec![a.clone(), b.clone(), c.clone()], &vec![true, false]);
    assert_eq!(tokens.len(), 3);
    assert!(matches!(&tokens[0], AddressOrAlmost::Address(x) if x.as_str() == a));
    assert!(matches!(&tokens[1], AddressOrAlmost::Almost(x) if *x == b));
    assert!(matches!(&tokens[2], AddressOrAlmost::Almost(x) if *x == c));
}

#[test]
fn message_without_addresses_is_handed_back() {
    let r = Request::try_from_message(message("good morning", Some(3)), &vec![]);
    match r {
        Err(m) => {
            assert_eq!(m.id, 7);
            assert_eq!(m.content, "good morning");
            assert_eq!(m.guild_id, Some(3));
        }
        Ok(_) => panic!("a message without addresses made a request"),
    }
}

#[test]
fn message_with_address_makes_a_request() {
    let a = address_text('q', '0');
    let text = format!("send to {}", a);
    let r = Request::try_from_message(message(&text, None), &vec![true]);
    match r {
        Ok(request) => {
            assert_eq!(request.message().id, 7);
            assert_eq!(request.message().content, text);
            assert_eq!(request.addresses().len(), 1);
            assert!(matches!(&request.addresses()[0], AddressOrAlmost::Address(x) if x.as_str() == a));
        }
        Err(_) => panic!("a message with an address made no request"),
    }
}

#[test]
fn from_matches_without_matcher_result_hands_back() {
    let r = Request::from_matches(message("anything", None), None, &vec![true]);
    assert!(matches!(r, Err(m) if m.content == "anything"));
    let r = Request::from_matches(message("anything", None), Some(vec![]), &vec![true]);
    assert!(matches!(r, Err(m) if m.content == "anything"));
}

#[test]
fn one_address_under_cap_one_succeeds() {
    let a = address_text('q', '0');
    let text = format!("send to {}", a);
    let request = Request::try_from_message(message(&text, None), &vec![true]).unwrap();
    let r = responder(1);
    let sends = r.sends(request.addresses());
    assert_eq!(texts(&sends), vec![a.clone()]);
    let reply = r.run(&request, &vec![Ok(())], &None);
    assert_eq!(
        reply,
        format!("Successfully sent tokens to the following addresses:\n`{}`", a)
    );
}

#[test]
fn second_address_over_cap_is_deferred() {
    let a = address_text('q', '0');
    let b = address_text('p', '0');
    let text = format!("{} {}", a, b);
    let request = Request::try_from_message(message(&text, None), &vec![true, true]).unwrap();
    let r = responder(1);
    assert_eq!(texts(&r.sends(request.addresses())), vec![a.clone()]);
    let reply = r.run(&request, &vec![Ok(())], &None);
    assert_eq!(
        reply,
        format!(
            "Successfully sent tokens to the following addresses:\n`{}`\nI'm only allowed to send tokens to addresses 1 at a time; try again later to get tokens for the following addresses:\n`{}`",
            a, b
        )
    );
    let d = r.dispense(request.addresses(), &vec![Ok(())]);
    assert_eq!(texts(&d.succeeded), vec![a]);
    assert_eq!(texts(&d.remaining), vec![b]);
    assert!(d.failed.is_empty());
    assert!(d.unparsed.is_empty());
}

#[test]
fn second_address_over_cap_is_deferred_after_failure() {
    let a = address_text('q', '0');
    let b = address_text('p', '0');
    let text = format!("{} {}", a, b);
    let request = Request::try_from_message(message(&text, None), &vec![true, true]).unwrap();
    let r = responder(1);
    let reply = r.run(&request, &vec![Err(String::from("insufficient funds"))], &None);
    assert_eq!(
        reply,
        format!(
            "Failed to send tokens to the following addresses:\n\n`{}` (error: insufficient funds)\nAdmin(s): you may want to investigate this error :)\nI'm only allowed to send tokens to addresses 1 at a time; try again later to get tokens for the following addresses:\n`{}`",
            a, b
        )
    );
}

#[test]
fn malformed_address_is_unparsed_and_nothing_is_sent() {
    let bad = address_text('q', '0');
    let request = Request::try_from_message(message(&bad, None), &vec![false]).unwrap();
    let r = responder(1);
    assert!(r.sends(request.addresses()).is_empty());
    let reply = r.run(&request, &vec![], &None);
    assert_eq!(
        reply,
        format!(
            "\nThe following _look like_ Penumbra addresses, but are invalid (maybe a typo or old address version?):\n`{}`",
            bad
        )
    );
}

#[test]
fn malformed_tokens_do_not_count_against_the_cap() {
    let bad1 = address_text('q', '0');
    let good1 = address_text('p', '0');
    let bad2 = address_text('z', '0');
    let good2 = address_text('r', '0');
    let good3 = address_text('y', '0');
    let tokens = tokens_from(
        &vec![bad1.clone(), good1.clone(), bad2.clone(), good2.clone(), good3.clone()],
        &vec![false, true, false, true, true],
    );
    let r = responder(2);
    assert_eq!(texts(&r.sends(&tokens)), vec![good1.clone(), good2.clone()]);
    let d = r.dispense(&tokens, &vec![Err(String::from("node unreachable")), Ok(())]);
    assert_eq!(texts(&d.succeeded), vec![good2]);
    assert_eq!(d.failed.len(), 1);
    assert_eq!(d.failed[0].0.as_str(), good1);
    assert_eq!(d.failed[0].1, "node unreachable");
    assert_eq!(d.unparsed, vec![bad1, bad2]);
    assert_eq!(texts(&d.remaining), vec![good3]);
    assert_eq!(
        d.succeeded.len() + d.failed.len() + d.unparsed.len() + d.remaining.len(),
        tokens.len()
    );
}

#[test]
fn cap_zero_defers_every_valid_address() {
    let a = address_text('q', '0');
    let tokens = tokens_from(&vec![a.clone()], &vec![true]);
    let r = responder(0);
    assert!(r.sends(&tokens).is_empty());
    let d = r.dispense(&tokens, &vec![]);
    assert_eq!(texts(&d.remaining), vec![a]);
    assert!(d.succeeded.is_empty());
}

#[test]
fn summary_has_every_section_in_order() {
    let r = responder(12);
    let ok = Address::new(String::from("A"));
    let bad = Address::new(String::from("B"));
    let late1 = Address::new(String::from("D"));
    let late2 = Address::new(String::from("E"));
    let reply = r.reply_dispense_summary(
        &vec![ok],
        &vec![(bad, String::from("boom"))],
        &vec![String::from("C")],
        &vec![late1, late2],
        "<@&1> <@&2>",
    );
    assert_eq!(
        reply,
        "Successfully sent tokens to the following addresses:\n`A`\
         Failed to send tokens to the following addresses:\n\n`B` (error: boom)\
         \n<@&1> <@&2>: you may want to investigate this error :)\
         \nThe following _look like_ Penumbra addresses, but are invalid (maybe a typo or old address version?):\n`C`\
         \nI'm only allowed to send tokens to addresses 12 at a time; try again later to get tokens for the following addresses:\n`D`\n`E`"
    );
}

#[test]
fn summary_of_nothing_is_empty() {
    let r = responder(3);
    assert_eq!(r.reply_dispense_summary(&vec![], &vec![], &vec![], &vec![], "Admin(s)"), "");
}

#[test]
fn cap_is_written_in_decimal() {
    let r = responder(1005);
    let late = Address::new(String::from("D"));
    let reply = r.reply_dispense_summary(&vec![], &vec![], &vec![], &vec![late], "");
    assert!(reply.starts_with("\nI'm only allowed to send tokens to addresses 1005 at a time;"));
    let r = responder(0);
    let late = Address::new(String::from("D"));
    let reply = r.reply_dispense_summary(&vec![], &vec![], &vec![], &vec![late], "");
    assert!(reply.starts_with("\nI'm only allowed to send tokens to addresses 0 at a time;"));
}

#[test]
fn admins_are_mentioned_with_spaces_between() {
    assert_eq!(mention_admins(&None), "Admin(s)");
    assert_eq!(mention_admins(&Some(vec![])), "");
    assert_eq!(mention_admins(&Some(vec![String::from("<@&5>")])), "<@&5>");
    assert_eq!(
        mention_admins(&Some(vec![String::from("<@&5>"), String::from("<@&6>"), String::from("<@&7>")])),
        "<@&5> <@&6> <@&7>"
    );
}

#[test]
fn failure_in_a_guild_flags_its_admins() {
    let a = address_text('q', '0');
    let request = Request::try_from_message(message(&a, Some(9)), &vec![true]).unwrap();
    let r = responder(1);
    let reply = r.run(
        &request,
        &vec![Err(String::from("insufficient funds"))],
        &Some(vec![String::from("<@&5>"), String::from("<@&6>")]),
    );
    assert_eq!(
        reply,
        format!(
            "Failed to send tokens to the following addresses:\n\n`{}` (error: insufficient funds)\n<@&5> <@&6>: you may want to investigate this error :)",
            a
        )
    );
}

#[test]
fn responder_keeps_its_settings() {
    let r = responder(4);
    assert_eq!(r.max_addresses(), 4);
    assert_eq!(r.values().len(), 1);
    assert_eq!(r.values()[0].amount, 100);
    assert_eq!(r.values()[0].denom, "upenumbra");
}

#[test]
fn buckets_hold_every_token_exactly_once() {
    let found: Vec<String> =
        vec!['q', 'p', 'z', 'r', 'y', 'x'].into_iter().map(|c| address_text(c, '0')).collect();
    let verdicts = vec![true, false, true, true, false, true];
    let tokens = tokens_from(&found, &verdicts);
    for cap in 0..6 {
        let r = responder(cap);
        let sends = r.sends(&tokens);
        assert_eq!(sends.len(), cap.min(4));
        let outcomes: Vec<Result<(), String>> = (0..sends.len())
            .map(|i| if i % 2 == 0 { Err(format!("error {}", i)) } else { Ok(()) })
            .collect();
        let d = r.dispense(&tokens, &outcomes);
        let mut filed: Vec<(bool, String)> = Vec::new();
        filed.extend(d.succeeded.iter().map(|a| (true, a.as_str().to_string())));
        filed.extend(d.failed.iter().map(|(a, _)| (true, a.as_str().to_string())));
        filed.extend(d.unparsed.iter().map(|t| (false, t.clone())));
        filed.extend(d.remaining.iter().map(|a| (true, a.as_str().to_string())));
        let mut expected: Vec<(bool, String)> =
            verdicts.iter().cloned().zip(found.iter().cloned()).collect();
        filed.sort();
        expected.sort();
        assert_eq!(filed, expected);
        assert_eq!(d.succeeded.len() + d.failed.len(), cap.min(4));
        assert_eq!(d.remaining.len(), 4 - cap.min(4));
        assert_eq!(d.unparsed, vec![found[1].clone(), found[4].clone()]);
        let mut serviced: Vec<String> = texts(&d.succeeded);
        serviced.extend(d.failed.iter().map(|(a, _)| a.as_str().to_string()));
        serviced.sort();
        let mut sent = texts(&sends);
        sent.sort();
        assert_eq!(serviced, sent);
    }
}

#[test]
fn outcomes_are_matched_to_sends_in_order() {
    let a = address_text('q', '0');
    let b = address_text('p', '0');
    let c = address_text('z', '0');
    let tokens = tokens_from(&vec![a.clone(), b.clone(), c.clone()], &vec![true, true, true]);
    let r = responder(3);
    let d = r.dispense(&tokens, &vec![Ok(()), Err(String::from("no funds")), Ok(())]);
    assert_eq!(texts(&d.succeeded), vec![a, c]);
    assert_eq!(d.failed.len(), 1);
    assert_eq!(d.failed[0].0.as_str(), b);
    assert_eq!(d.failed[0].1, "no funds");
}
