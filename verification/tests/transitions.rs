use mention_contract::transition::{
    authority_at, block_at, locate, on_authority, on_block, on_clone, on_execute, on_mint,
    start_at, Config, OwnershipPolicy, Step,
};
use mention_contract::host::{read_reply, Reply};
use mention_contract::types::{MetaContract, MetaContractResult, Metadata, Transaction};

fn config(policy: OwnershipPolicy) -> Config {
    Config {
        ipfs_multiaddr: String::new(),
        timeout_sec: 0,
        authority_url: String::new(),
        policy,
        require_owner: false,
    }
}

fn contract() -> MetaContract {
    MetaContract {
        hash: String::new(),
        token_key: String::new(),
        meta_contract_id: "0x77".to_string(),
        public_key: "0xdeployer".to_string(),
        cid: String::new(),
    }
}

fn transaction(data: &str, public_key: &str) -> Transaction {
    Transaction {
        hash: "h".to_string(),
        method: "metadata".to_string(),
        meta_contract_id: "0x77".to_string(),
        data_key: "subject-1".to_string(),
        token_key: "tk".to_string(),
        data: data.to_string(),
        public_key: public_key.to_string(),
        alias: String::new(),
        timestamp: 0,
        chain_id: "5".to_string(),
        token_address: "0xnft".to_string(),
        token_id: "42".to_string(),
        version: String::new(),
        status: 0,
        mcdata: String::new(),
    }
}

fn record(version: &str, data_key: &str, cid: &str, public_key: &str) -> Metadata {
    Metadata {
        hash: String::new(),
        token_key: String::new(),
        data_key: data_key.to_string(),
        meta_contract_id: "0x77".to_string(),
        token_id: "42".to_string(),
        alias: "mentions".to_string(),
        cid: cid.to_string(),
        public_key: public_key.to_string(),
        version: version.to_string(),
        loose: 0,
    }
}

fn bootstrap(alias: &str) -> Metadata {
    Metadata {
        hash: String::new(),
        token_key: String::new(),
        data_key: "subject-1".to_string(),
        meta_contract_id: "0x01".to_string(),
        token_id: "42".to_string(),
        alias: alias.to_string(),
        cid: "bafyboot".to_string(),
        public_key: "0x01".to_string(),
        version: String::new(),
        loose: 0,
    }
}

fn finished(step: Step) -> MetaContractResult {
    match step {
        Step::Finished(r) => r,
        other => panic!("not finished: {:?}", other),
    }
}

fn assert_failure(r: &MetaContractResult, reason: &str) {
    assert!(!r.result);
    assert!(r.metadatas.is_empty());
    assert_eq!(r.error_string, reason);
}

const PROPOSAL: &str = "{\"cid\":\"bafy1\",\"mentionable\":false,\"owner\":\"alice\"}";

const STORED: &str = "{\"timestamp\":1,\"content\":{\"timestamp\":7,\"mentionable\":true,\"owner\":\"alice\"},\"previous\":null,\"transaction\":{}}";

const TOKEN: &str = "{ \n                        \"address\": \"0xnft\", \n                        \"chain\": \"5\", \n                        \"id\": \"42\"\n                    }";

fn answer(public_keys: &[&str]) -> String {
    let mut list = String::new();
    for (i, k) in public_keys.iter().enumerate() {
        if i > 0 {
            list.push(',');
        }
        list.push_str(&format!(
            "{{\"hash\":\"\",\"token_key\":\"\",\"data_key\":\"subject-1\",\"meta_contract_id\":\"0x01\",\"token_id\":\"\",\"alias\":\"\",\"cid\":\"\",\"public_key\":\"{}\",\"version\":\"\",\"loose\":0}}",
            k
        ));
    }
    format!(
        "{{\"jsonrpc\":\"2.0\",\"method\":\"search_metadatas\",\"result\":{{\"success\":true,\"err_msg\":\"\",\"metadatas\":[{}]}}}}",
        list
    )
}

#[test]
fn empty_cid_is_refused() {
    let tx = transaction("{\"cid\":\"\",\"mentionable\":true,\"owner\":\"alice\"}", "alice");
    let snapshot = vec![record("", "subject-1", "bafyold", "bob")];
    let r = finished(start_at(&config(OwnershipPolicy::RejectOnMismatch), &snapshot, &tx, 9));
    assert_failure(&r, "cid cannot be empty");
}

#[test]
fn empty_owner_is_refused_where_required() {
    let tx = transaction("{\"cid\":\"bafy1\",\"owner\":\"\"}", "alice");
    let mut c = config(OwnershipPolicy::RejectOnMismatch);
    c.require_owner = true;
    let r = finished(start_at(&c, &vec![], &tx, 9));
    assert_failure(&r, "owner cannot be empty");
    c.require_owner = false;
    let r = finished(start_at(&c, &vec![], &tx, 9));
    assert!(r.result);
}

#[test]
fn absent_owner_reads_as_empty() {
    let tx = transaction("{\"cid\":\"bafy1\"}", "alice");
    let mut c = config(OwnershipPolicy::RejectOnMismatch);
    let r = finished(start_at(&c, &vec![], &tx, 9));
    assert!(r.result);
    assert_eq!(
        r.metadatas[2].content,
        "{\"timestamp\":9,\"mentionable\":true,\"owner\":\"\"}"
    );
    c.require_owner = true;
    let r = finished(start_at(&c, &vec![], &tx, 9));
    assert_failure(&r, "owner cannot be empty");
}

#[test]
fn malformed_payloads_are_refused() {
    for data in [
        "",
        "not json",
        "[]",
        "{\"cid\":5,\"owner\":\"a\"}",
        "{\"owner\":\"a\"}",
        "{\"cid\":\"bafy1\",\"owner\":null}",
        "{\"cid\":\"bafy1\",\"owner\":7}",
        "{\"cid\":\"bafy1\",\"mentionable\":\"yes\",\"owner\":\"a\"}",
        "{\"cid\":\"bafy1\",\"owner\":\"a\"} trailing",
    ] {
        let tx = transaction(data, "alice");
        let r = finished(start_at(&config(OwnershipPolicy::RejectOnMismatch), &vec![], &tx, 9));
        assert_failure(&r, "Data does not follow the required JSON schema");
    }
}

#[test]
fn first_write_reflects_the_proposal() {
    let tx = transaction(PROPOSAL, "alice");
    let r = finished(start_at(&config(OwnershipPolicy::RejectOnMismatch), &vec![], &tx, 1000));
    assert!(r.result);
    assert_eq!(r.error_string, "");
    assert_eq!(r.metadatas.len(), 3);
    assert_eq!(r.metadatas[0].public_key, "0x01");
    assert_eq!(r.metadatas[0].alias, "token");
    assert_eq!(r.metadatas[0].content, TOKEN);
    assert_eq!(r.metadatas[0].version, "");
    assert_eq!(r.metadatas[0].loose, 0);
    assert_eq!(r.metadatas[1].public_key, "0x01");
    assert_eq!(r.metadatas[1].alias, "lineage_key");
    assert_eq!(r.metadatas[1].content, "subject-1");
    assert_eq!(r.metadatas[1].version, "");
    assert_eq!(r.metadatas[2].public_key, "0x77");
    assert_eq!(r.metadatas[2].alias, "mentions");
    assert_eq!(
        r.metadatas[2].content,
        "{\"timestamp\":1000,\"mentionable\":false,\"owner\":\"alice\"}"
    );
    assert_eq!(r.metadatas[2].version, "bafy1");
    assert_eq!(r.metadatas[2].loose, 0);
}

#[test]
fn absent_and_null_flags_default_to_mentionable() {
    for data in [
        "{\"cid\":\"bafy1\",\"owner\":\"alice\"}",
        "{\"cid\":\"bafy1\",\"mentionable\":null,\"owner\":\"alice\"}",
        "{\"cid\":\"bafy1\",\"mentionable\":true,\"owner\":\"alice\",\"extra\":1}",
    ] {
        let tx = transaction(data, "alice");
        let r = finished(start_at(&config(OwnershipPolicy::RejectOnMismatch), &vec![], &tx, 3));
        assert_eq!(
            r.metadatas[2].content,
            "{\"timestamp\":3,\"mentionable\":true,\"owner\":\"alice\"}"
        );
    }
}

#[test]
fn first_write_now_carries_a_fresh_timestamp() {
    let before = std::time::SystemTime::now()
        .duration_since(std::time::UNIX_EPOCH)
        .unwrap()
        .as_millis() as u64;
    let tx = transaction(PROPOSAL, "alice");
    let r = finished(on_execute(
        &config(OwnershipPolicy::RejectOnMismatch),
        &contract(),
        &vec![],
        &tx,
    ));
    assert!(r.result);
    let written: serde_json::Value = serde_json::from_str(&r.metadatas[2].content).unwrap();
    assert!(written["timestamp"].as_u64().unwrap() >= before);
    assert_eq!(written["mentionable"].as_bool(), Some(false));
    assert_eq!(written["owner"].as_str(), Some("alice"));
}

#[test]
fn locate_takes_the_last_match() {
    let snapshot = vec![
        record("bafy1", "subject-1", "first", "a"),
        record("bafy2", "subject-1", "other-cid", "a"),
        record("bafy1", "subject-1", "second", "b"),
        record("bafy1", "subject-2", "other-key", "c"),
    ];
    assert_eq!(locate(&snapshot, &"bafy1".to_string(), &"subject-1".to_string()), Some(2));
    assert_eq!(locate(&snapshot, &"bafy2".to_string(), &"subject-1".to_string()), Some(1));
    assert_eq!(locate(&snapshot, &"bafy3".to_string(), &"subject-1".to_string()), None);
    assert_eq!(locate(&vec![], &"bafy1".to_string(), &"subject-1".to_string()), None);
}

#[test]
fn prior_record_asks_for_its_block() {
    let snapshot = vec![
        record("bafy1", "subject-1", "bafyold", "alice"),
        record("bafy1", "subject-1", "bafynewer", "alice"),
    ];
    let tx = transaction(PROPOSAL, "alice");
    match start_at(&config(OwnershipPolicy::RejectOnMismatch), &snapshot, &tx, 5) {
        Step::FetchBlock(cmd) => assert_eq!(
            cmd,
            vec!["dag", "get", "bafynewer", "--timeout", "1s", "--api", "/ip4/127.0.0.1/tcp/5001"]
        ),
        other => panic!("unexpected step {:?}", other),
    }
    let mut c = config(OwnershipPolicy::RejectOnMismatch);
    c.ipfs_multiaddr = "/dns4/ipfs/tcp/5001".to_string();
    c.timeout_sec = 30;
    match start_at(&c, &snapshot, &tx, 5) {
        Step::FetchBlock(cmd) => assert_eq!(
            cmd,
            vec!["dag", "get", "bafynewer", "--timeout", "30s", "--api", "/dns4/ipfs/tcp/5001"]
        ),
        other => panic!("unexpected step {:?}", other),
    }
}

#[test]
fn matching_record_without_block_counts_as_first_write() {
    let snapshot = vec![record("bafy1", "subject-1", "", "bob")];
    let tx = transaction(PROPOSAL, "alice");
    let r = finished(start_at(&config(OwnershipPolicy::RejectOnMismatch), &snapshot, &tx, 5));
    assert!(r.result);
}

#[test]
fn author_overwrites_the_prior_record() {
    let snapshot = vec![record("bafy1", "subject-1", "bafyold", "alice")];
    let tx = transaction(PROPOSAL, "alice");
    let r = finished(block_at(
        &config(OwnershipPolicy::RejectOnMismatch),
        &snapshot,
        &tx,
        &Reply::Text(STORED.to_string()),
        2000,
    ));
    assert!(r.result);
    let last = r.metadatas.last().unwrap();
    assert_eq!(last.alias, "mentions");
    assert_eq!(last.content, "{\"timestamp\":2000,\"mentionable\":false,\"owner\":\"alice\"}");
    assert_eq!(last.version, "bafy1");
}

#[test]
fn stranger_is_refused_without_fallback() {
    let snapshot = vec![record("bafy1", "subject-1", "bafyold", "alice")];
    let tx = transaction(PROPOSAL, "mallory");
    let c = config(OwnershipPolicy::RejectOnMismatch);
    let r = finished(block_at(&c, &snapshot, &tx, &Reply::Text(STORED.to_string()), 2000));
    assert_failure(&r, "Not owner of the post");
    let r = authority_at(&c, &snapshot, &tx, &Reply::Text(STORED.to_string()), &Reply::Unavailable, 2000);
    assert_failure(&r, "Not owner of the post");
}

#[test]
fn store_failures_end_the_transition() {
    let snapshot = vec![record("bafy1", "subject-1", "bafyold", "alice")];
    let tx = transaction(PROPOSAL, "alice");
    let c = config(OwnershipPolicy::RejectOnMismatch);
    let r = finished(block_at(&c, &snapshot, &tx, &Reply::Unavailable, 1));
    assert_failure(&r, "Unable to reach the content store");
    let r = finished(block_at(&c, &snapshot, &tx, &Reply::Text("<html>".to_string()), 1));
    assert_failure(&r, "Unable to decode the stored block");
    let r = finished(block_at(&c, &snapshot, &tx, &Reply::Unreadable, 1));
    assert_failure(&r, "Unable to decode the stored block");
    let r = finished(block_at(
        &c,
        &snapshot,
        &tx,
        &Reply::Text("{\"timestamp\":1,\"content\":{},\"previous\":null}".to_string()),
        1,
    ));
    assert_failure(&r, "Unable to decode the stored block");
    let r = finished(block_at(
        &c,
        &snapshot,
        &tx,
        &Reply::Text(
            "{\"timestamp\":1,\"content\":{\"owner\":3},\"previous\":null,\"transaction\":null}"
                .to_string(),
        ),
        1,
    ));
    assert_failure(&r, "Unable to deserialize ipfs content");
}

#[test]
fn block_step_without_prior_record_is_the_first_step() {
    let tx = transaction(PROPOSAL, "alice");
    let c = config(OwnershipPolicy::RejectOnMismatch);
    let r = finished(block_at(&c, &vec![], &tx, &Reply::Unavailable, 77));
    assert!(r.result);
    assert_eq!(
        r.metadatas[2].content,
        "{\"timestamp\":77,\"mentionable\":false,\"owner\":\"alice\"}"
    );
}

#[test]
fn stranger_is_referred_to_the_authority() {
    let snapshot = vec![record("bafy1", "subject-1", "bafyold", "alice")];
    let tx = transaction(PROPOSAL, "mallory");
    let c = config(OwnershipPolicy::EscalateToAuthority);
    match block_at(&c, &snapshot, &tx, &Reply::Text(STORED.to_string()), 2000) {
        Step::QueryAuthority(cmd) => assert_eq!(
            cmd,
            vec![
                "curl",
                "-X",
                "POST",
                "-H",
                "Content-type: application/json",
                "-d",
                "{\"jsonrpc\":\"2.0\",\"method\":\"search_metadatas\",\"params\":{\"query\":[{\"column\":\"data_key\",\"op\":\"=\",\"query\":\"subject-1\"},{\"column\":\"meta_contract_id\",\"op\":\"=\",\"query\":\"0x01\"}],\"ordering\":[],\"from\":0,\"to\":0},\"id\":\"1\"}",
                "http://127.0.0.1:3000/api/v0/json-rpc",
            ]
        ),
        other => panic!("unexpected step {:?}", other),
    }
}

#[test]
fn authority_naming_the_requester_authorizes() {
    let snapshot = vec![record("bafy1", "subject-1", "bafyold", "alice")];
    let tx = transaction(PROPOSAL, "mallory");
    let c = config(OwnershipPolicy::EscalateToAuthority);
    let r = authority_at(
        &c,
        &snapshot,
        &tx,
        &Reply::Text(STORED.to_string()),
        &Reply::Text(answer(&["mallory", "alice"])),
        2000,
    );
    assert!(r.result);
    assert_eq!(
        r.metadatas.last().unwrap().content,
        "{\"timestamp\":2000,\"mentionable\":false,\"owner\":\"alice\"}"
    );
}

#[test]
fn authority_naming_another_keeps_the_prior_record() {
    let snapshot = vec![record("bafy1", "subject-1", "bafyold", "alice")];
    let tx = transaction(PROPOSAL, "mallory");
    let c = config(OwnershipPolicy::EscalateToAuthority);
    for reply in [answer(&[]), answer(&["alice", "mallory"])] {
        let r = authority_at(&c, &snapshot, &tx, &Reply::Text(STORED.to_string()), &Reply::Text(reply), 2000);
        assert!(r.result);
        assert_eq!(r.error_string, "");
        let last = r.metadatas.last().unwrap();
        assert_eq!(last.content, "{\"timestamp\":7,\"mentionable\":true,\"owner\":\"alice\"}");
        assert_eq!(last.version, "bafy1");
    }
}

#[test]
fn unsuccessful_search_claims_nothing() {
    let snapshot = vec![record("bafy1", "subject-1", "bafyold", "alice")];
    let tx = transaction(PROPOSAL, "mallory");
    let c = config(OwnershipPolicy::EscalateToAuthority);
    let reply = answer(&["mallory"]).replace("\"success\":true", "\"success\":false");
    let r = authority_at(&c, &snapshot, &tx, &Reply::Text(STORED.to_string()), &Reply::Text(reply), 2000);
    assert!(r.result);
    assert_eq!(
        r.metadatas.last().unwrap().content,
        "{\"timestamp\":7,\"mentionable\":true,\"owner\":\"alice\"}"
    );
}

#[test]
fn authority_failures_end_the_transition() {
    let snapshot = vec![record("bafy1", "subject-1", "bafyold", "alice")];
    let tx = transaction(PROPOSAL, "mallory");
    let c = config(OwnershipPolicy::EscalateToAuthority);
    let r = authority_at(&c, &snapshot, &tx, &Reply::Text(STORED.to_string()), &Reply::Unavailable, 2000);
    assert_failure(&r, "Unable to reach the ownership authority");
    let r = authority_at(
        &c,
        &snapshot,
        &tx,
        &Reply::Text(STORED.to_string()),
        &Reply::Text("{\"jsonrpc\":\"2.0\"}".to_string()),
        2000,
    );
    assert_failure(&r, "Unable to decode the authority response");
    let r = authority_at(
        &c,
        &snapshot,
        &tx,
        &Reply::Text(STORED.to_string()),
        &Reply::Unreadable,
        2000,
    );
    assert_failure(&r, "Unable to decode the authority response");
    let broken = answer(&["mallory"]).replace("\"loose\":0", "\"loose\":\"0\"");
    let r = authority_at(&c, &snapshot, &tx, &Reply::Text(STORED.to_string()), &Reply::Text(broken), 2000);
    assert_failure(&r, "Unable to decode the authority response");
}

#[test]
fn bootstrap_facts_are_filed_once() {
    let tx = transaction(PROPOSAL, "alice");
    let c = config(OwnershipPolicy::RejectOnMismatch);
    let r = finished(start_at(&c, &vec![bootstrap("token"), bootstrap("lineage_key")], &tx, 1));
    assert_eq!(r.metadatas.len(), 1);
    assert_eq!(r.metadatas[0].alias, "mentions");
    let r = finished(start_at(&c, &vec![bootstrap("token")], &tx, 1));
    assert_eq!(r.metadatas.len(), 2);
    assert_eq!(r.metadatas[0].alias, "lineage_key");
    let r = finished(start_at(&c, &vec![bootstrap("lineage_key")], &tx, 1));
    assert_eq!(r.metadatas.len(), 2);
    assert_eq!(r.metadatas[0].alias, "token");
    let mut foreign = bootstrap("token");
    foreign.public_key = "0x02".to_string();
    let r = finished(start_at(&c, &vec![foreign], &tx, 1));
    assert_eq!(r.metadatas.len(), 3);
}

#[test]
fn steps_taken_now_agree_with_steps_at_a_time() {
    let snapshot = vec![record("bafy1", "subject-1", "bafyold", "alice")];
    let tx = transaction(PROPOSAL, "mallory");
    let c = config(OwnershipPolicy::EscalateToAuthority);
    assert!(matches!(on_execute(&c, &contract(), &snapshot, &tx), Step::FetchBlock(_)));
    assert!(matches!(
        on_block(&c, &snapshot, &tx, &Reply::Text(STORED.to_string())),
        Step::QueryAuthority(_)
    ));
    let r = on_authority(&c, &snapshot, &tx, &Reply::Text(STORED.to_string()), &Reply::Text(answer(&[])));
    assert!(r.result);
    assert_eq!(
        r.metadatas.last().unwrap().content,
        "{\"timestamp\":7,\"mentionable\":true,\"owner\":\"alice\"}"
    );
}

#[test]
fn cloning_and_minting_are_refused() {
    assert!(!on_clone());
    let r = on_mint(contract(), "k".to_string(), "1".to_string(), "{}".to_string());
    assert_failure(&r, "on_mint is not available");
}

#[test]
fn replies_of_outside_commands() {
    assert!(matches!(read_reply(0, b"{}".to_vec()), Reply::Text(t) if t == "{}"));
    assert!(matches!(read_reply(0, vec![]), Reply::Text(t) if t.is_empty()));
    assert!(matches!(
        read_reply(0, "sn\u{2603}w".as_bytes().to_vec()),
        Reply::Text(t) if t == "sn\u{2603}w"
    ));
    assert!(matches!(read_reply(0, vec![0xff, 0xfe]), Reply::Unreadable));
    assert!(matches!(read_reply(0, vec![0xc0, 0x80]), Reply::Unreadable));
    assert!(matches!(read_reply(1, b"{}".to_vec()), Reply::Unavailable));
    assert!(matches!(read_reply(-1, vec![0xff]), Reply::Unavailable));
}

#[test]
fn a_whole_transition_from_raw_replies() {
    let snapshot = vec![record("bafy1", "subject-1", "bafyold", "alice")];
    let tx = transaction(PROPOSAL, "alice");
    let c = Config::default();
    assert!(matches!(start_at(&c, &snapshot, &tx, 10), Step::FetchBlock(_)));
    let reply = read_reply(0, STORED.as_bytes().to_vec());
    let r = finished(block_at(&c, &snapshot, &tx, &reply, 10));
    assert!(r.result);
    let r = finished(block_at(&c, &snapshot, &tx, &read_reply(2, vec![]), 10));
    assert_failure(&r, "Unable to reach the content store");
}

#[test]
fn default_settings() {
    let c = Config::default();
    assert_eq!(c.ipfs_multiaddr, "");
    assert_eq!(c.timeout_sec, 0);
    assert_eq!(c.authority_url, "");
    assert!(matches!(c.policy, OwnershipPolicy::RejectOnMismatch));
    assert!(!c.require_owner);
}
