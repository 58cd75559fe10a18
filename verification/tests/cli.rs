use schat::cli::args::{
    hex_id, parse_args, parse_on_off, usage_msg, Args, Flag, Given, Usage,
};
use schat::cli::commands::{
    cap_id, check_key_file, command, create, mime_for, needed, on_off, only_request, pair_choice,
    parse_item_kind, parse_kind, parse_visibility, policy_choice, prepared_line, profile_choice,
    request_line, send, sniff_line, sticker_choice, strip_line, wrote_line, Command, PairChoice,
    PolicyChoice, ProfileChoice, StickerChoice,
};
use schat::cli::util::{
    attach_sent_line, check_unlocked, line_with_id, load_or_generate_dek, render_event,
    render_policy, render_status, render_thread, text_record, text_sent_line, wait_step, DevKey,
    WaitStep, ONLINE_RECHECK_SECS, ONLINE_TIMEOUT_SECS,
};
use schat::engine::EngineEvent;
use schat::media::sniff::MediaKind;
use schat::media::sticker::PreparedSticker;
use schat::pairing::requests::RequestInfo;
use schat::policy::{PendingProposal, PolicyState};
use schat::store::{DeliveryState, Direction, MessageRow};
use schat::text::{read_number, split_at_commas};
use schat::transport::{ServiceStatus, TorState, TransportStatus};
use schat::wire::attach::{CLASS_IMAGE, CLASS_VIDEO};
use schat::wire::policy::{CAP_ID_ATTACH, CAP_ID_RECEIPTS, CAP_ID_TYPING};
use schat::wire::sticker::{KIND_EMOJI, KIND_STICKER, VISIBILITY_PRIVATE, VISIBILITY_PUBLIC};

fn parse(line: &str) -> Result<Args, Usage> {
    let words: Vec<String> = line.split(' ').map(|w| w.to_string()).collect();
    parse_args(&words)
}

fn args(line: &str) -> Args {
    match parse(line) {
        Ok(a) => a,
        Err(u) => panic!("{line}: {u:?}"),
    }
}

fn because<T>(r: Result<T, Usage>) -> String {
    match r {
        Err(Usage::Because(why)) => why,
        _ => panic!("refused with a reason"),
    }
}

// The command line

#[test]
fn flags_and_values_are_read() {
    let a = args("send --rel r1 --text hi --alert --ttl 3600 --item +7 --screenshot off");
    assert_eq!(a.cmd, "send");
    assert_eq!(a.text(Flag::Rel), Some("r1"));
    assert_eq!(a.text(Flag::Text), Some("hi"));
    assert!(a.has(Flag::Alert) && !a.has(Flag::Once));
    assert_eq!(a.number(Flag::Ttl), Some(3600));
    assert_eq!(a.number(Flag::Item), Some(7));
    assert_eq!(a.switch(Flag::Screenshot), Some(false));
    assert_eq!(a.switch(Flag::AttachDownload), None);
    assert_eq!(a.data_dir(), "./schat-data");
    assert_eq!(args("ping --data-dir d").data_dir(), "d");
    assert!(matches!(a.get(Flag::Alert), Some(Given::Switch)));
}

#[test]
fn the_later_value_counts() {
    let a = args("send --rel one --rel two");
    assert_eq!(a.text(Flag::Rel), Some("two"));
    // A value may look like a flag.
    let a = args("send --text --alert");
    assert_eq!(a.text(Flag::Text), Some("--alert"));
    assert!(!a.has(Flag::Alert));
}

#[test]
fn bad_command_lines_are_refused() {
    assert!(matches!(parse_args(&Vec::new()), Err(Usage::Bare)));
    assert_eq!(because(parse("send --what")), "unknown flag --what");
    assert_eq!(because(parse("send --rel")), "--rel needs a value");
    assert_eq!(
        because(parse("policy --ttl soon")),
        "--ttl needs seconds (0 = never)"
    );
    assert_eq!(
        because(parse("policy --ttl 4294967296")),
        "--ttl needs seconds (0 = never)"
    );
    assert_eq!(because(parse("sticker --item 65536")), "--item needs a number");
    assert_eq!(because(parse("policy --screenshot maybe")), "expected on|off");
    let Usage::Because(why) = usage_msg("no") else {
        panic!("a reason")
    };
    assert_eq!(why, "no");
}

#[test]
fn every_flag_is_known() {
    for flag in [
        "--data-dir", "--chutney-nodes", "--to", "--text", "--mode", "--accept", "--code",
        "--out", "--rel", "--msg-id", "--file", "--caption", "--name", "--jpeg", "--cap",
        "--pack", "--pk", "--title", "--files", "--kind", "--visibility", "--dek-file",
    ] {
        assert!(parse(&format!("x {flag} v")).is_ok(), "{flag}");
    }
    for flag in [
        "--alert", "--once", "--simulate-network-flap", "--restricted", "--offer",
        "--accept-request", "--requests", "--abort", "--view-once", "--on", "--off", "--dnd",
        "--remove", "--list", "--show", "--broadcast", "--request", "--propose", "--decline",
        "--set", "--create", "--send", "--fetch", "--accept-rules",
    ] {
        assert!(parse(&format!("x {flag}")).is_ok(), "{flag}");
    }
}

#[test]
fn on_and_off_have_spellings() {
    for v in ["on", "true", "1", "yes"] {
        assert!(matches!(parse_on_off(v), Ok(true)));
    }
    for v in ["off", "false", "0", "no"] {
        assert!(matches!(parse_on_off(v), Ok(false)));
    }
    assert!(parse_on_off("ON").is_err());
}

#[test]
fn ids_are_hex_digits_of_one_length() {
    assert_eq!(hex_id::<2>("0aFf").unwrap(), [0x0a, 0xff]);
    assert_eq!(because(hex_id::<1>("+f")), "invalid hex id");
    assert_eq!(because(hex_id::<1>("zz")), "invalid hex id");
    assert_eq!(because(hex_id::<1>("é")), "invalid hex id");
    assert_eq!(because(hex_id::<2>("aé")), "invalid hex id");
    assert_eq!(because(hex_id::<2>("aa")), "hex id has the wrong length");
    assert_eq!(because(hex_id::<2>("abc")), "invalid hex id");
    assert_eq!(because(hex_id::<2>("")), "hex id has the wrong length");
}

#[test]
fn a_capability_is_switched_by_a_word() {
    for (words, on) in [
        ("policy --rel r --cap typing on", true),
        ("policy --rel r --cap typing off", false),
        ("policy --rel r --cap typing --on", true),
    ] {
        assert!(
            matches!(
                policy_choice(&args(words)),
                Ok(PolicyChoice::Cap { cap_id: CAP_ID_TYPING, on: o }) if o == on
            ),
            "{words}"
        );
    }
    // Only there.
    assert!(parse("policy on").is_err());
    assert!(parse("policy --cap typing --rel r on").is_err());
    assert!(parse("policy --cap typing maybe").is_err());
}

#[test]
fn numbers_are_read_like_integers() {
    assert_eq!(read_number("0", 10), Some(0));
    assert_eq!(read_number("0010", 10), Some(10));
    assert_eq!(read_number("+10", 10), Some(10));
    assert_eq!(read_number("11", 10), None);
    for bad in ["", "+", "-1", "1 ", "x", "99999999999999999999999"] {
        assert_eq!(read_number(bad, u32::MAX), None, "{bad:?}");
    }
}

#[test]
fn commas_split() {
    assert_eq!(split_at_commas("a,b,,c"), vec!["a", "b", "", "c"]);
    assert_eq!(split_at_commas(""), vec![""]);
    assert_eq!(split_at_commas("ä"), vec!["ä"]);
}

// Choices

#[test]
fn commands_are_known_by_name() {
    assert_eq!(command("ping"), Some(Command::Ping));
    assert_eq!(command("media-prepare-sticker"), Some(Command::MediaPrepareSticker));
    assert_eq!(command("panic-wipe"), Some(Command::PanicWipe));
    assert_eq!(command("Ping"), None);
}

#[test]
fn pairing_has_one_operation() {
    assert!(matches!(pair_choice(&args("pair --offer --abort")), Ok(PairChoice::Offer)));
    assert!(matches!(pair_choice(&args("pair --accept f")), Ok(PairChoice::AcceptFile)));
    assert!(matches!(pair_choice(&args("pair --code c")), Ok(PairChoice::AcceptCode)));
    assert!(matches!(pair_choice(&args("pair --requests")), Ok(PairChoice::Requests)));
    assert!(matches!(
        pair_choice(&args("pair --accept-request")),
        Ok(PairChoice::AcceptRequest)
    ));
    assert!(matches!(pair_choice(&args("pair --abort")), Ok(PairChoice::Abort)));
    assert_eq!(
        because(pair_choice(&args("pair --accept f --code c"))),
        "use either --accept FILE or --code CODE, not both"
    );
    assert!(because(pair_choice(&args("pair"))).starts_with("pair needs one of"));
}

#[test]
fn requests_are_listed() {
    let r = RequestInfo {
        rel_id: "r".into(),
        sas: "12345678".into(),
        peer_onion: "p.onion".into(),
        created_at: 9,
    };
    assert_eq!(
        request_line(&r),
        "request: rel_id=r safety=12345678 peer=p.onion created_at=9"
    );
    assert_eq!(only_request(&vec![r.clone()]).as_deref(), Some("r"));
    assert!(only_request(&vec![r.clone(), r]).is_none());
    assert!(only_request(&Vec::new()).is_none());
}

#[test]
fn policy_operations_are_complete() {
    assert!(matches!(
        policy_choice(&args("policy --propose --ttl 3600 --screenshot on --attach-download off")),
        Ok(PolicyChoice::Propose {
            ttl_sec: 3600,
            screenshot: true,
            attach_download: false
        })
    ));
    assert_eq!(
        because(policy_choice(&args("policy --propose"))),
        "--propose needs --ttl SEC"
    );
    assert_eq!(
        because(policy_choice(&args("policy --propose --ttl 0"))),
        "--propose needs --screenshot on|off"
    );
    assert_eq!(
        because(policy_choice(&args("policy --propose --ttl 0 --screenshot on"))),
        "--propose needs --attach-download on|off"
    );
    assert!(matches!(
        policy_choice(&args("policy --accept-rules")),
        Ok(PolicyChoice::AcceptRules)
    ));
    assert!(matches!(policy_choice(&args("policy --decline")), Ok(PolicyChoice::Decline)));
    assert!(matches!(
        policy_choice(&args("policy --cap attachments --off")),
        Ok(PolicyChoice::Cap {
            cap_id: CAP_ID_ATTACH,
            on: false
        })
    ));
    assert_eq!(
        because(policy_choice(&args("policy --cap typing --on --off"))),
        "--cap needs --on or --off"
    );
    assert!(because(policy_choice(&args("policy"))).starts_with("policy needs"));
    assert!(matches!(cap_id("read"), Ok(CAP_ID_RECEIPTS)));
    assert!(cap_id("money").is_err());
}

#[test]
fn profile_and_sticker_operations() {
    assert!(matches!(profile_choice(&args("profile --set")), Ok(ProfileChoice::Store)));
    assert!(matches!(profile_choice(&args("profile --show")), Ok(ProfileChoice::Show)));
    assert!(matches!(
        profile_choice(&args("profile --broadcast")),
        Ok(ProfileChoice::Broadcast)
    ));
    assert!(matches!(
        profile_choice(&args("profile --request")),
        Ok(ProfileChoice::Request)
    ));
    assert!(profile_choice(&args("profile")).is_err());
    assert!(matches!(
        sticker_choice(&args("sticker --list --create")),
        Ok(StickerChoice::Create)
    ));
    assert!(matches!(sticker_choice(&args("sticker --remove")), Ok(StickerChoice::Remove)));
    assert!(matches!(sticker_choice(&args("sticker --send")), Ok(StickerChoice::Send)));
    assert!(matches!(sticker_choice(&args("sticker --fetch")), Ok(StickerChoice::Fetch)));
    assert!(sticker_choice(&args("sticker")).is_err());
}

#[test]
fn packs_are_described() {
    let p = create(&args("sticker --title T --files a.png,b.png --kind sticker --visibility private"))
        .unwrap();
    assert_eq!((p.title.as_str(), p.kind, p.visibility), ("T", KIND_STICKER, VISIBILITY_PRIVATE));
    assert_eq!(p.files, vec!["a.png", "b.png"]);
    let p = create(&args("sticker --title T --files a")).unwrap();
    assert_eq!((p.kind, p.visibility), (KIND_EMOJI, VISIBILITY_PUBLIC));
    assert_eq!(because(create(&args("sticker"))), "--create needs --title T");
    assert_eq!(
        because(create(&args("sticker --title T"))),
        "--create needs --files A,B,.."
    );
    assert_eq!(because(parse_kind(Some("x"))), "--kind emoji|sticker");
    assert_eq!(because(parse_visibility(Some("x"))), "--visibility public|private");
    assert!(matches!(parse_item_kind(None), Ok(KIND_STICKER)));
    assert!(matches!(parse_item_kind(Some("emoji")), Ok(KIND_EMOJI)));
    assert_eq!(because(parse_item_kind(Some("x"))), "--kind sticker|emoji");
}

#[test]
fn needed_flags_are_asked_for() {
    let a = args("typing --on --rel r");
    assert!(matches!(needed(&a, Flag::Rel, "needs --rel REL_ID"), Ok("r")));
    assert_eq!(because(needed(&a, Flag::MsgId, "needs --msg-id ID")), "needs --msg-id ID");
    assert!(matches!(on_off(&a, "needs --on or --off"), Ok(true)));
    assert_eq!(because(on_off(&args("typing"), "needs --on or --off")), "needs --on or --off");
}

#[test]
fn attachments_are_what_their_bytes_say() {
    let gif = b"GIF89a....".to_vec();
    let spec = send("f.txt", gif, "txt", Some("c"), true).unwrap();
    assert_eq!((spec.media_class, spec.mime_hint.as_str()), (CLASS_IMAGE, "image/gif"));
    assert_eq!((spec.orig_ext.as_str(), spec.caption.as_str()), ("txt", "c"));
    let spec = send("f", b"....ftypmp42".to_vec(), "", None, false).unwrap();
    assert_eq!((spec.media_class, spec.mime_hint.as_str()), (CLASS_VIDEO, "video/mp4"));
    let Err(e) = send("f.txt", b"plain".to_vec(), "txt", None, false) else {
        panic!("text is no media")
    };
    assert_eq!(e, "f.txt: unrecognized or disallowed media type");
    assert_eq!(mime_for(MediaKind::Webm), "video/webm");
    assert_eq!(sniff_line("f", b"GIF89a...."), "f: gif (10 bytes)");
}

// Lines

#[test]
fn events_are_rendered() {
    let id = [0xabu8; 16];
    let hex = "ab".repeat(16);
    let rel = || "r".to_string();
    let cases = [
        (EngineEvent::Message { rel_id: rel(), msg_id: id }, format!("message: rel=r id={hex}")),
        (EngineEvent::Edited { rel_id: rel(), msg_id: id }, format!("edited: rel=r id={hex}")),
        (EngineEvent::Deleted { rel_id: rel(), msg_id: id }, format!("deleted: rel=r id={hex}")),
        (EngineEvent::HistoryCleared { rel_id: rel() }, "history-cleared: rel=r".into()),
        (EngineEvent::Read { rel_id: rel(), msg_id: id }, format!("read: rel=r id={hex}")),
        (EngineEvent::Typing { rel_id: rel(), typing: true }, "typing: rel=r typing=true".into()),
        (
            EngineEvent::Presence { rel_id: rel(), in_app: true, do_not_disturb: false },
            "presence: rel=r in_app=true dnd=false".into(),
        ),
        (EngineEvent::ProfileUpdated { rel_id: rel() }, "profile-updated: rel=r".into()),
        (EngineEvent::ProfileRequested { rel_id: rel() }, "profile-requested: rel=r".into()),
        (EngineEvent::PeerPrefs { rel_id: rel() }, "peer-prefs: rel=r".into()),
        (
            EngineEvent::Sticker { rel_id: rel(), msg_id: id, ready: false },
            format!("sticker: rel=r id={hex} ready=false"),
        ),
        (
            EngineEvent::StickerPackInstalled { pack_id: id },
            format!("pack-installed: pack={hex}"),
        ),
        (
            EngineEvent::StickerPackRefused { pack_id: id, reason: 12 },
            format!("pack-refused: pack={hex} reason=12"),
        ),
        (
            EngineEvent::StickerThumbs { pack_id: id, doc: vec![] },
            format!("pack-thumbs: pack={hex}"),
        ),
        (
            EngineEvent::AttachmentProgress { rel_id: rel(), head_id: id, received: 3, total: 10 },
            format!("attach-progress: rel=r head={hex} 3/10"),
        ),
        (
            EngineEvent::AttachmentComplete { rel_id: rel(), head_id: id, msg_id: id },
            format!("attach-complete: rel=r head={hex} msg={hex}"),
        ),
        (
            EngineEvent::AttachmentFailed { rel_id: rel(), head_id: id },
            format!("attach-failed: rel=r head={hex}"),
        ),
        (
            EngineEvent::AttachmentChunkDropped { rel_id: rel(), head_id: id },
            format!("attach-chunk-dropped: rel=r head={hex}"),
        ),
        (EngineEvent::PolicyChanged { rel_id: rel() }, "policy-changed: rel=r".into()),
        (EngineEvent::ContactClosed { rel_id: rel() }, "contact-closed: rel=r".into()),
        (
            EngineEvent::GapDetected { rel_id: rel() },
            "gap-detected: rel=r (resync requested)".into(),
        ),
    ];
    for (event, line) in cases {
        assert_eq!(render_event(&event), line);
    }
}

#[test]
fn the_status_is_one_line() {
    let mut s = TransportStatus {
        tor: TorState::Bootstrapping { pct: 45 },
        kill_switch: false,
        mode: "normal".into(),
        outbox: 2,
        inbox: 0,
        last_error: None,
        services: vec![],
    };
    assert_eq!(
        render_status(&s),
        "tor=bootstrapping 45% kill_switch=false mode=normal outbox=2 inbox=0 last_error=- services=[]"
    );
    s.tor = TorState::Dead {
        reason: "gone".into(),
    };
    s.last_error = Some("e".into());
    s.services = vec![
        ServiceStatus {
            service_id: "a".into(),
            state: "Online".into(),
            onion: Some("a.onion".into()),
        },
        ServiceStatus {
            service_id: "b".into(),
            state: "Off".into(),
            onion: None,
        },
    ];
    assert_eq!(
        render_status(&s),
        "tor=dead: gone kill_switch=false mode=normal outbox=2 inbox=0 last_error=e services=[a=Online(a.onion) b=Off()]"
    );
}

#[test]
fn text_records_are_fixed_size() {
    let rec = text_record("hi");
    assert_eq!(rec.len(), 256);
    assert_eq!(rec[..6], [2, 0, 2, b'h', b'i', 0]);
    let rec = text_record(&"x".repeat(300));
    assert_eq!(rec.len(), 256);
    assert_eq!(rec[..3], [2, 0, 250]);
    assert_eq!(rec[252..], [b'x', 0, 0, 0]);
}

#[test]
fn the_policy_is_one_line() {
    let mut s = PolicyState::default();
    assert_eq!(
        render_policy(&s),
        "ttl=86400 screenshot=true attach_download=true enforced[attach=true emoji=true presence=true typing=true receipts=true] none"
    );
    s.peer_want = 1;
    s.pending = Some(PendingProposal {
        ttl_sec: 0,
        screenshot: false,
        attach_download: true,
        inbound: true,
        propose_id: [0u8; 16],
    });
    assert_eq!(
        render_policy(&s),
        "ttl=86400 screenshot=true attach_download=true enforced[attach=true emoji=false presence=false typing=false receipts=false] pending(theirs ttl=0 screenshot=false attach_download=true)"
    );
}

fn message(seq: u64, payload: &[u8]) -> MessageRow {
    MessageRow {
        msg_id: [1u8; 16],
        rel_id: "rel".into(),
        direction: Direction::Out,
        app_seq: seq,
        sent_at: 1,
        received_at: None,
        env_type: 1,
        ref_id: None,
        payload: payload.to_vec(),
        state: DeliveryState::Queued,
        expires_at: None,
        created_at: 1,
        edited: false,
        tombstone: false,
        read_at: None,
        edit_count: 0,
        last_edit_seq: 0,
    }
}

#[test]
fn threads_are_rendered_oldest_first() {
    let id = "01".repeat(16);
    let mut newest = message(2, &[b'a', 0xff]);
    newest.direction = Direction::In;
    newest.state = DeliveryState::Received;
    newest.edited = true;
    newest.read_at = Some(4);
    let lines = render_thread(&vec![newest, message(1, b"hi")]);
    assert_eq!(lines.len(), 2);
    assert_eq!(lines[0], format!("→ seq=1 id={id} type=1 state=queued hi"));
    assert_eq!(
        lines[1],
        format!("← seq=2 id={id} type=1 state=received a\u{fffd} [edited,read]")
    );
    let mut gone = message(3, b"");
    gone.tombstone = true;
    assert_eq!(
        render_thread(&vec![gone])[0],
        format!("→ seq=3 id={id} type=1 state=queued  [tombstone]")
    );
}

#[test]
fn outcomes_have_lines() {
    let id = [1u8; 16];
    let hex = "01".repeat(16);
    assert_eq!(line_with_id("edited (edit id ", &id, ")"), format!("edited (edit id {hex})"));
    assert_eq!(
        text_sent_line("r", &id),
        format!("sent to relationship r (msg_id {hex})")
    );
    assert_eq!(
        attach_sent_line(&id, 12, true),
        format!("attachment sent (head {hex}, 12 bytes, view_once=true)")
    );
    assert_eq!(wrote_line(3, "f"), "wrote 3 bytes to f");
    assert_eq!(
        strip_line("f", 10, 7, "g"),
        "f: stripped + re-encoded 10 → 7 bytes → g"
    );
    let p = PreparedSticker {
        bytes: vec![0; 5],
        width: 3,
        height: 4,
        thumb: vec![0; 2],
    };
    assert_eq!(
        prepared_line("f", &p),
        "f: prepared 3x4 item=5 bytes thumb=2 bytes"
    );
}

#[test]
fn commands_refuse_while_locked() {
    assert!(check_unlocked(false).is_ok());
    assert_eq!(
        check_unlocked(true).unwrap_err(),
        "instance is locked (run `schat-cli unlock`)"
    );
}

#[test]
fn developer_keys_are_kept_or_made() {
    assert!(
        matches!(load_or_generate_dek(Some(&[7u8; 32]), "p"), Ok(DevKey::Use(k)) if k == [7u8; 32])
    );
    assert_eq!(
        load_or_generate_dek(Some(&[7u8; 3]), "p").unwrap_err(),
        "p: dev DEK is not 32 bytes"
    );
    let Ok(DevKey::Write(a)) = load_or_generate_dek(None, "p") else {
        panic!("a new key")
    };
    let Ok(DevKey::Write(b)) = load_or_generate_dek(None, "p") else {
        panic!("a new key")
    };
    assert_ne!(a, b);
    assert!(check_key_file("p", &[0u8; 32]).is_ok());
    assert_eq!(
        check_key_file("p", &[0u8; 33]).unwrap_err(),
        "p: DEK must be 32 bytes"
    );
}

#[test]
fn commands_wait_until_the_deadline() {
    let going = TorState::Bootstrapping { pct: 45 };
    assert_eq!(wait_step(&TorState::Online, false), WaitStep::Ready);
    assert_eq!(wait_step(&TorState::Online, true), WaitStep::Ready);
    assert_eq!(wait_step(&going, false), WaitStep::Wait);
    assert_eq!(wait_step(&going, true), WaitStep::GiveUp);
    assert_eq!((ONLINE_TIMEOUT_SECS, ONLINE_RECHECK_SECS), (120, 5));
}
