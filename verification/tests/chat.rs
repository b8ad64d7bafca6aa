use gemma4_assistant::browse::BrowseIntent;
use gemma4_assistant::chat::{
    after_tool_call, browse_context_message, check_tool_depth, finish_turn, insert_before_last, is_sentence_end, plan_message,
    restored_message, take_pending, tool_cancelled_message, tool_result_message, MessagePlan, StreamState, ToolStep,
};
use gemma4_assistant::config::{choose_tts, default_max_tool_calls, default_true, default_tts_engine, PersonalityConfig, TtsChoice};
use gemma4_assistant::irodori::IrodoriTtsClient;
use gemma4_assistant::office::types::EditAction;
use gemma4_assistant::voice::voice_payload;
use gemma4_assistant::voicevox::{urlencoded, Speaker, VoicevoxClient};
use gemma4_assistant::browse::urlencoding;

#[test]
fn sentence_ends() {
    for c in ['。', '！', '？', '!', '?', '\n'] {
        assert!(is_sentence_end(c));
    }
    assert!(!is_sentence_end('、'));
}

#[test]
fn stream_shows_tokens_and_collects_sentences() {
    let mut s = StreamState::new();
    let a = s.on_token("こんにちは", true);
    assert_eq!(a.emit.as_deref(), Some("こんにちは"));
    assert!(a.speak.is_none());
    let b = s.on_token("。元気", true);
    assert_eq!(b.speak, Some(("こんにちは。元気".to_string(), 0)));
    let c = s.on_token("", true);
    assert!(c.emit.is_none());
    let d = s.on_token("です？", true);
    assert_eq!(d.speak, Some(("です？".to_string(), 1)));
    let e = s.on_token("```to", true);
    assert_eq!(e.emit.as_deref(), Some("```to"));
    let f = s.on_token("ol\n{", true);
    assert!(f.emit.is_none());
    assert!(s.in_tool_block);
    let g = s.on_token("。", true);
    assert!(g.emit.is_none() && g.speak.is_none());
    assert_eq!(s.full, "こんにちは。元気です？```tool\n{。");
}

#[test]
fn stream_without_speech_only_shows() {
    let mut s = StreamState::new();
    let a = s.on_token("はい。", false);
    assert_eq!(a.emit.as_deref(), Some("はい。"));
    assert!(a.speak.is_none());
    assert_eq!(s.sentence_buf, "");
}

#[test]
fn turn_end_finds_tool_call_or_last_sentence() {
    let mut s = StreamState::new();
    s.on_token("一文目。", true);
    s.on_token("残り", true);
    let end = finish_turn(&s, true, true);
    assert!(end.action.is_none());
    assert_eq!(end.visible, "一文目。残り");
    assert_eq!(end.last_sentence, Some(("残り".to_string(), 1)));
    assert_eq!(end.voice_count, 2);

    let mut t = StreamState::new();
    t.on_token("やるわよ ```tool\n{\"tool\": \"excel_open\", \"args\": {\"path\": \"x.xlsx\"}}\n```", true);
    let end2 = finish_turn(&t, true, true);
    assert!(matches!(end2.action, Some(EditAction::ExcelOpen { .. })));
    assert_eq!(end2.visible, "やるわよ");
    assert!(end2.last_sentence.is_none());
    let end3 = finish_turn(&t, true, false);
    assert!(end3.action.is_none());
    assert_eq!(end3.visible, "やるわよ");
}

#[test]
fn tool_calls_wait_or_go_one_round_deeper() {
    let a = EditAction::WordOpen { path: "a.docx".into() };
    assert!(matches!(after_tool_call(true, 3, a.clone()), ToolStep::AwaitConfirmation(EditAction::WordOpen { .. })));
    match after_tool_call(false, 3, a) {
        ToolStep::Run { action, next_depth } => {
            assert!(matches!(action, EditAction::WordOpen { .. }));
            assert_eq!(next_depth, 4);
        }
        ToolStep::AwaitConfirmation(_) => panic!("ran without confirmation"),
    }
}

#[test]
fn a_turn_stops_at_the_tool_call_limit() {
    let max = default_max_tool_calls();
    let mut depth = 0u32;
    let mut requests = 0u32;
    while check_tool_depth(depth, max).is_ok() {
        requests += 1;
        match after_tool_call(false, depth, EditAction::ExcelOpen { path: "x.xlsx".into() }) {
            ToolStep::Run { next_depth, .. } => depth = next_depth,
            ToolStep::AwaitConfirmation(_) => break,
        }
    }
    assert_eq!(requests, 5);
    assert_eq!(check_tool_depth(depth, max), Err("ツール呼び出し上限".to_string()));
}

#[test]
fn tool_depth_is_limited() {
    assert!(check_tool_depth(0, 5).is_ok());
    assert_eq!(check_tool_depth(5, 5), Err("ツール呼び出し上限".to_string()));
    assert!(check_tool_depth(0, 0).is_err());
}

#[test]
fn plans_messages() {
    assert!(matches!(plan_message("https://a.example を見て", true, true, &vec![]), MessagePlan::Browse(BrowseIntent::Url(_))));
    assert!(matches!(plan_message("https://a.example を見て", true, false, &vec![]), MessagePlan::Chat));
    assert!(matches!(plan_message("やあ", true, true, &vec![]), MessagePlan::Chat));
}

#[test]
fn system_messages() {
    assert_eq!(
        browse_context_message("R"),
        "[最重要指示] ユーザーが検索や情報取得を依頼しました。以下のWeb検索結果を必ず参照し、その内容をもとに回答してください。\n\n[検索結果]\nR\n[検索結果ここまで]"
    );
    assert_eq!(tool_result_message("excel_open", "{\"ok\":true}"), "[ツール実行結果] tool=excel_open result={\"ok\":true}");
    assert_eq!(tool_cancelled_message(), "[ツール実行キャンセル] ユーザーが拒否しました。自然に会話に戻ってください。");
    assert_eq!(restored_message("C:\\h\\x"), "復元元: C:\\h\\x");
}

#[test]
fn context_goes_before_the_user_message() {
    let mut h = vec!["system", "user"];
    insert_before_last(&mut h, "context");
    assert_eq!(h, vec!["system", "context", "user"]);
}

#[test]
fn pending_tool_call_is_taken_once() {
    let mut p = Some(EditAction::WordOpen { path: "a".into() });
    assert!(take_pending(&mut p).is_ok());
    assert!(p.is_none());
    assert_eq!(take_pending(&mut p).err(), Some("保留中のtool-callがありません".to_string()));
}

#[test]
fn config_defaults() {
    let c = PersonalityConfig::default();
    assert_eq!(c.name, "アシスタント");
    assert_eq!(c.model, "gemma4");
    assert_eq!(c.tts_engine, "voicevox");
    assert!(c.browse_enabled && c.office_enabled && c.require_confirmation);
    assert_eq!(c.max_tool_calls_per_turn, 5);
    assert!(c.office_whitelist.is_empty() && c.triggers.is_empty() && c.irodori_url.is_none());
    assert_eq!(default_tts_engine(), "voicevox");
    assert!(default_true());
    assert_eq!(default_max_tool_calls(), 5);
}

#[test]
fn chooses_the_speech_engine() {
    assert!(matches!(choose_tts("irodori", Some("https://x")), Some(TtsChoice::Irodori(ref u)) if u == "https://x"));
    assert!(choose_tts("irodori", None).is_none());
    assert!(matches!(choose_tts("voicevox", None), Some(TtsChoice::Voicevox)));
    assert!(matches!(choose_tts("other", Some("u")), Some(TtsChoice::Voicevox)));
}

#[test]
fn voicevox_requests() {
    let mut v = VoicevoxClient::new("http://localhost:50021");
    assert_eq!(v.speakers_url(), "http://localhost:50021/speakers");
    assert_eq!(v.audio_query_url("x"), Err("speaker_idが未設定です".to_string()));
    let speakers = vec![
        Speaker { name: "四国めたん".into(), styles: vec![2, 0] },
        Speaker { name: "東北きりたん".into(), styles: vec![] },
        Speaker { name: "きりたん改".into(), styles: vec![108, 109] },
    ];
    assert_eq!(v.resolve_speaker_id(&speakers, "きりたん"), Ok(108));
    assert_eq!(v.speaker_id, Some(108));
    assert_eq!(v.audio_query_url("あ a"), Ok("http://localhost:50021/audio_query?text=%E3%81%82%20a&speaker=108".to_string()));
    assert_eq!(v.synthesis_url(), Ok("http://localhost:50021/synthesis?speaker=108".to_string()));
    assert_eq!(v.resolve_speaker_id(&speakers, "ずんだ"), Err("スピーカー 'ずんだ' が見つかりません".to_string()));
    assert_eq!(v.speaker_id, Some(108));
}

#[test]
fn both_query_encoders_agree() {
    for s in ["", "abc", "a b", "日本語テキスト。", "😀/?&="] {
        assert_eq!(urlencoded(s), urlencoding(s));
    }
}

#[test]
fn irodori_address() {
    let c = IrodoriTtsClient::new("https://x.modal.run//");
    assert_eq!(c.base_url, "https://x.modal.run");
    assert_eq!(c.synthesize_url(), "https://x.modal.run/synthesize");
}

#[test]
fn voice_payload_is_base64() {
    assert_eq!(voice_payload(3, Ok(b"Man".to_vec())), Some((3, "TWFu".to_string())));
    assert_eq!(voice_payload(0, Ok(b"Ma".to_vec())), Some((0, "TWE=".to_string())));
    assert_eq!(voice_payload(0, Ok(b"M".to_vec())), Some((0, "TQ==".to_string())));
    assert_eq!(voice_payload(0, Ok(vec![0xff, 0xfe, 0x00, 0x10])), Some((0, "//4AEA==".to_string())));
    assert_eq!(voice_payload(1, Err("x".into())), None);
}
