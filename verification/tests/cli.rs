use redis_cli::args::{ArgList, CmdArgs};
use redis_cli::client::RedisClient;
use redis_cli::commands::{get, hget, hgetall, Cmd};
use redis_cli::error::{CmdError, Er};
use redis_cli::format::{format_hgetall, render_value_line};
use redis_cli::mem_client::MemClient;
use redis_cli::run;

fn args_of(xs: &[&str]) -> ArgList {
    ArgList::new(xs.iter().map(|s| s.to_string()).collect())
}

fn strings_of(xs: &[&str]) -> Vec<String> {
    xs.iter().map(|s| s.to_string()).collect()
}

#[test]
fn arglist_consumes_in_order() {
    let mut a = args_of(&["one", "two"]);
    assert_eq!(a.get_arg(), Some("one".to_string()));
    assert_eq!(a.get_arg(), Some("two".to_string()));
    assert_eq!(a.get_arg(), None);
    assert_eq!(a.get_arg(), None);
}

#[test]
fn parse_attaches_rest_unconsumed() {
    match Cmd::from(args_of(&["prog", "GET", "k", "extra"])) {
        Ok(Cmd::Get(mut a)) => {
            assert_eq!(a.get_arg(), Some("k".to_string()));
            assert_eq!(a.get_arg(), Some("extra".to_string()));
            assert_eq!(a.get_arg(), None);
        }
        _ => panic!("expected the GET variant"),
    }
}

#[test]
fn parse_no_command_token() {
    assert!(matches!(Cmd::from(args_of(&["prog"])), Err(CmdError::NoCommand)));
    assert!(matches!(Cmd::from(args_of(&[])), Err(CmdError::NoCommand)));
}

#[test]
fn parse_unrecognized_command() {
    match Cmd::from(args_of(&["prog", "FOO"])) {
        Ok(Cmd::NotFound(name)) => assert_eq!(name, "FOO"),
        _ => panic!("expected the NotFound variant"),
    }
}

#[test]
fn parse_is_case_sensitive() {
    match Cmd::from(args_of(&["prog", "get"])) {
        Ok(Cmd::NotFound(name)) => assert_eq!(name, "get"),
        _ => panic!("expected the NotFound variant"),
    }
}

#[test]
fn get_missing_key_argument() {
    let mut client = MemClient::new();
    match Cmd::from(args_of(&["prog", "GET"])) {
        Ok(Cmd::Get(mut a)) => match get(&mut a, &mut client) {
            Err(CmdError::MissingArgument(name, cmd)) => {
                assert_eq!(name, "key");
                assert_eq!(cmd, "GET");
            }
            _ => panic!("expected a missing-argument error"),
        },
        _ => panic!("expected the GET variant"),
    }
}

#[test]
fn set_missing_value_argument() {
    let mut client = MemClient::new();
    match Cmd::from(args_of(&["prog", "SET", "k"])) {
        Ok(Cmd::SetCmd(mut a)) => match redis_cli::commands::set(&mut a, &mut client) {
            Err(CmdError::MissingArgument(name, cmd)) => {
                assert_eq!(name, "value");
                assert_eq!(cmd, "SET");
            }
            _ => panic!("expected a missing-argument error"),
        },
        _ => panic!("expected the SET variant"),
    }
}

#[test]
fn hget_missing_field_argument() {
    let mut client = MemClient::new();
    match Cmd::from(args_of(&["prog", "HGET", "k"])) {
        Ok(Cmd::HGet(mut a)) => match hget(&mut a, &mut client) {
            Err(CmdError::MissingArgument(name, cmd)) => {
                assert_eq!(name, "field");
                assert_eq!(cmd, "HGET");
            }
            _ => panic!("expected a missing-argument error"),
        },
        _ => panic!("expected the HGET variant"),
    }
}

#[test]
fn hgetall_missing_key_argument() {
    let mut client = MemClient::new();
    match Cmd::from(args_of(&["prog", "HGETALL"])) {
        Ok(Cmd::HGetAll(mut a)) => match hgetall(&mut a, &mut client) {
            Err(CmdError::MissingArgument(name, cmd)) => {
                assert_eq!(name, "key");
                assert_eq!(cmd, "HGETALL");
            }
            _ => panic!("expected a missing-argument error"),
        },
        _ => panic!("expected the HGETALL variant"),
    }
}

#[test]
fn run_unexpected_command() {
    let mut client = MemClient::new();
    let r = run(args_of(&["prog", "FOO"]), &mut client);
    assert_eq!(r.unwrap(), strings_of(&["Unexpected command: FOO"]));
}

#[test]
fn run_no_command_is_an_error() {
    let mut client = MemClient::new();
    assert!(matches!(run(args_of(&["prog"]), &mut client), Err(CmdError::NoCommand)));
}

#[test]
fn get_nil_when_key_absent() {
    let mut client = MemClient::new();
    let r = run(args_of(&["prog", "GET", "nokey"]), &mut client);
    assert_eq!(r.unwrap(), strings_of(&["GET(nokey): nil"]));
}

#[test]
fn set_then_get_round_trip() {
    let mut client = MemClient::new();
    let r = run(args_of(&["prog", "SET", "k", "v"]), &mut client);
    assert_eq!(r.unwrap(), Vec::<String>::new());
    let r = run(args_of(&["prog", "GET", "k"]), &mut client);
    assert_eq!(r.unwrap(), strings_of(&["GET(k): \"v\""]));
}

#[test]
fn set_latest_write_wins() {
    let mut client = MemClient::new();
    run(args_of(&["prog", "SET", "k", "v1"]), &mut client).unwrap();
    run(args_of(&["prog", "SET", "k", "v2"]), &mut client).unwrap();
    let r = run(args_of(&["prog", "GET", "k"]), &mut client);
    assert_eq!(r.unwrap(), strings_of(&["GET(k): \"v2\""]));
}

#[test]
fn get_ignores_excess_arguments() {
    let mut client = MemClient::new();
    run(args_of(&["prog", "SET", "k", "v"]), &mut client).unwrap();
    let r = run(args_of(&["prog", "GET", "k", "surplus"]), &mut client);
    assert_eq!(r.unwrap(), strings_of(&["GET(k): \"v\""]));
}

#[test]
fn hget_found_missing_field_and_missing_key() {
    let mut client = MemClient::new();
    client.put_hash("h".to_string(), strings_of(&["f1", "v1", "f2", "v2"]));
    let r = run(args_of(&["prog", "HGET", "h", "f2"]), &mut client);
    assert_eq!(r.unwrap(), strings_of(&["HGET(h): \"v2\""]));
    let r = run(args_of(&["prog", "HGET", "h", "f3"]), &mut client);
    assert_eq!(r.unwrap(), strings_of(&["HGET(h): nil"]));
    let r = run(args_of(&["prog", "HGET", "nokey", "f1"]), &mut client);
    assert_eq!(r.unwrap(), strings_of(&["HGET(nokey): nil"]));
}

#[test]
fn hgetall_nil_when_key_absent() {
    let mut client = MemClient::new();
    let r = run(args_of(&["prog", "HGETALL", "nokey"]), &mut client);
    assert_eq!(r.unwrap(), strings_of(&["HGETALL(nokey): nil"]));
}

#[test]
fn hash_format_aligns_fields() {
    let lines = format_hgetall("user:1", &strings_of(&["name", "Alice", "age", "30"]));
    assert_eq!(
        lines,
        strings_of(&["HGETALL(user:1)", "\"name\" -> \"Alice\"", "\"age\"  -> \"30\""])
    );
}

#[test]
fn hash_format_via_run() {
    let mut client = MemClient::new();
    client.put_hash("user:1".to_string(), strings_of(&["name", "Alice", "age", "30"]));
    let r = run(args_of(&["prog", "HGETALL", "user:1"]), &mut client);
    assert_eq!(
        r.unwrap(),
        strings_of(&["HGETALL(user:1)", "\"name\" -> \"Alice\"", "\"age\"  -> \"30\""])
    );
}

#[test]
fn hash_format_empty_prints_only_header() {
    let lines = format_hgetall("k", &Vec::new());
    assert_eq!(lines, strings_of(&["HGETALL(k)"]));
    let mut client = MemClient::new();
    client.put_hash("k".to_string(), Vec::new());
    let r = run(args_of(&["prog", "HGETALL", "k"]), &mut client);
    assert_eq!(r.unwrap(), strings_of(&["HGETALL(k)"]));
}

#[test]
fn hash_format_odd_length_pairs_trailing_field_with_empty_value() {
    let lines = format_hgetall("k", &strings_of(&["a", "1", "trailing"]));
    let padding = " ".repeat(7);
    assert_eq!(
        lines,
        vec![
            "HGETALL(k)".to_string(),
            format!("\"a\"{} -> \"1\"", padding),
            "\"trailing\" -> \"\"".to_string(),
        ]
    );
}

#[test]
fn render_is_deterministic() {
    let v = Some("value".to_string());
    let first = render_value_line("GET", "k", &v);
    let second = render_value_line("GET", "k", &v);
    assert_eq!(first, second);
    assert_eq!(first, "GET(k): \"value\"".to_string());
}

#[test]
fn mem_client_direct_operations() {
    let mut c = MemClient::new();
    assert!(matches!(c.set("a", "1"), Ok(())));
    assert_eq!(c.get("a").unwrap(), Some("1".to_string()));
    assert_eq!(c.get("b").unwrap(), None);
    assert_eq!(c.hget("a", "f").unwrap(), None);
    assert!(c.hgetall("a").unwrap().is_none());
}

#[test]
fn error_messages() {
    assert_eq!(CmdError::NoCommand.message(), "No command line args were passed");
    assert_eq!(
        CmdError::MissingArgument("key", "GET").message(),
        "No key argument provided for GET command"
    );
    assert_eq!(
        CmdError::Client(Er::from_string("boom".to_string())).message(),
        "boom"
    );
}

#[test]
fn er_carries_its_message() {
    let e = Er::new("something went wrong");
    assert_eq!(e.msg(), "something went wrong");
    let e = Er::from_string("dynamic".to_string());
    assert_eq!(e.msg(), "dynamic");
}
