use vstd::prelude::*;
use vstd::string::*;
use crate::browse::{url_encode_bytes, push_encoded_byte, lemma_url_encode_concat};
use crate::text::{owned, chars_of, contains, contains_exec, decimal, push_decimal};

verus! {

/// The VOICEVOX engine at `base_url`, and the speaker chosen for it.
#[derive(Debug, Clone)]
pub struct VoicevoxClient {
    pub base_url: String,
    pub speaker_id: Option<u32>,
}

/// A speaker that the engine offers: its name and the ids of its styles.
#[derive(Debug, Clone)]
pub struct Speaker {
    pub name: String,
    pub styles: Vec<u32>,
}

/// The UTF-8 bytes of one character, as `char::encode_utf8` writes them.
pub fn char_utf8(c: char) -> (res: Vec<u8>)
    ensures
        res@ == vstd::utf8::encode_scalar(c as u32),
{
    let u = c as u32;
    let mut v: Vec<u8> = Vec::new();
    proof {
        vstd::utf8::char_is_scalar(c);
    }
    if u <= 0x7F {
        v.push((u & 0x7F) as u8);
    } else if u <= 0x7FF {
        v.push(0xC0 | ((u >> 6) & 0x1F) as u8);
        v.push(0x80 | (u & 0x3F) as u8);
    } else if u <= 0xFFFF {
        v.push(0xE0 | ((u >> 12) & 0x0F) as u8);
        v.push(0x80 | ((u >> 6) & 0x3F) as u8);
        v.push(0x80 | (u & 0x3F) as u8);
    } else {
        v.push(0xF0 | ((u >> 18) & 0x7) as u8);
        v.push(0x80 | ((u >> 12) & 0x3F) as u8);
        v.push(0x80 | ((u >> 6) & 0x3F) as u8);
        v.push(0x80 | (u & 0x3F) as u8);
    }
    assert(v@ =~= vstd::utf8::encode_scalar(u));
    v
}

/// `s` percent-encoded character by character: the UTF-8 bytes of each
/// character, each byte kept where unreserved and written `%XX` otherwise.
pub open spec fn url_encode_chars(s: Seq<char>) -> Seq<char>
    decreases s.len(),
{
    if s.len() == 0 {
        Seq::empty()
    } else {
        url_encode_chars(s.drop_last()) + url_encode_bytes(vstd::utf8::encode_scalar(s.last() as u32))
    }
}

/// Percent-encodes `s` for a query string.
pub fn urlencoded(s: &str) -> (res: String)
    ensures
        res@ == url_encode_chars(s@),
{
    let cs = chars_of(s);
    let mut res = String::new();
    let mut i: usize = 0;
    while i < cs.len()
        invariant
            i <= cs.len(),
            cs@ == s@,
            res@ == url_encode_chars(cs@.take(i as int)),
        decreases cs.len() - i,
    {
        let bytes = char_utf8(cs[i]);
        let ghost before = res@;
        let mut k: usize = 0;
        while k < bytes.len()
            invariant
                k <= bytes.len(),
                res@ == before + url_encode_bytes(bytes@.take(k as int)),
            decreases bytes.len() - k,
        {
            assert(bytes@.take(k + 1).drop_last() =~= bytes@.take(k as int));
            push_encoded_byte(&mut res, bytes[k]);
            assert(res@ =~= before + url_encode_bytes(bytes@.take(k + 1)));
            k = k + 1;
        }
        assert(bytes@.take(bytes.len() as int) =~= bytes@);
        assert(cs@.take(i + 1).drop_last() =~= cs@.take(i as int));
        i = i + 1;
    }
    assert(cs@.take(cs.len() as int) =~= cs@);
    res
}

/// Encoding character by character gives what encoding the whole UTF-8
/// text byte by byte gives: the two encoders of queries agree.
pub proof fn lemma_url_encodings_agree(s: Seq<char>)
    ensures
        url_encode_chars(s) == url_encode_bytes(vstd::utf8::encode_utf8(s)),
    decreases s.len(),
{
    if s.len() == 0 {
    } else {
        lemma_url_encodings_agree(s.drop_last());
        let last = seq![s.last()];
        assert(s =~= s.drop_last() + last);
        crate::text::lemma_encode_utf8_concat(s.drop_last(), last);
        assert(last.drop_first() =~= Seq::<char>::empty());
        assert(vstd::utf8::encode_utf8(last.drop_first()) =~= Seq::<u8>::empty());
        assert(vstd::utf8::encode_utf8(last) =~= vstd::utf8::encode_scalar(s.last() as u32));
        lemma_url_encode_concat(
            vstd::utf8::encode_utf8(s.drop_last()),
            vstd::utf8::encode_scalar(s.last() as u32),
        );
    }
}

/// The first speaker whose name contains `name` and who has a style.
pub open spec fn chosen_style(speakers: Seq<Speaker>, name: Seq<char>) -> Option<u32>
    decreases speakers.len(),
{
    if speakers.len() == 0 {
        None
    } else if contains(speakers[0].name@, name) && speakers[0].styles.len() > 0 {
        Some(speakers[0].styles@[0])
    } else {
        chosen_style(speakers.drop_first(), name)
    }
}

pub open spec fn no_speaker(name: Seq<char>) -> Seq<char> {
    "スピーカー '"@ + name + "' が見つかりません"@
}

impl VoicevoxClient {
    pub fn new(base_url: &str) -> (res: Self)
        ensures
            res.base_url@ == base_url@,
            res.speaker_id is None,
    {
        VoicevoxClient { base_url: owned(base_url), speaker_id: None }
    }

    /// Where the list of speakers is.
    pub fn speakers_url(&self) -> (res: String)
        ensures
            res@ == self.base_url@ + "/speakers"@,
    {
        let mut s = self.base_url.clone();
        s.append("/speakers");
        s
    }

    /// Chooses the speaker for `name` from the engine's list: the first style
    /// of the first speaker whose name contains `name` and who has one.
    pub fn resolve_speaker_id(&mut self, speakers: &Vec<Speaker>, name: &str) -> (res: Result<u32, String>)
        ensures
            final(self).base_url == old(self).base_url,
            match chosen_style(speakers@, name@) {
                Some(id) => res == Ok::<u32, String>(id) && final(self).speaker_id == Some(id),
                None => (res matches Err(e) && e@ == no_speaker(name@)) && final(self).speaker_id
                    == old(self).speaker_id,
            },
    {
        let needle = chars_of(name);
        let mut i: usize = 0;
        assert(speakers@.skip(0) =~= speakers@);
        while i < speakers.len()
            invariant
                i <= speakers.len(),
                needle@ == name@,
                self.base_url == old(self).base_url,
                self.speaker_id == old(self).speaker_id,
                chosen_style(speakers@, name@) == chosen_style(speakers@.skip(i as int), name@),
            decreases speakers.len() - i,
        {
            assert(speakers@.skip(i as int)[0] == speakers@[i as int]);
            assert(speakers@.skip(i as int).drop_first() =~= speakers@.skip(i + 1));
            let sp = &speakers[i];
            if contains_exec(&chars_of(sp.name.as_str()), &needle) && sp.styles.len() > 0 {
                let id = sp.styles[0];
                self.speaker_id = Some(id);
                return Ok(id);
            }
            i = i + 1;
        }
        assert(speakers@.skip(i as int) =~= Seq::<Speaker>::empty());
        let mut e = owned("スピーカー '");
        e.append(name);
        e.append("' が見つかりません");
        Err(e)
    }

    /// Where to ask for the audio query of `text`; an error where no speaker
    /// has been chosen.
    pub fn audio_query_url(&self, text: &str) -> (res: Result<String, String>)
        ensures
            match self.speaker_id {
                Some(id) => (res matches Ok(u) && u@ == self.base_url@ + "/audio_query?text="@
                    + url_encode_chars(text@) + "&speaker="@ + decimal(id as nat)),
                None => (res matches Err(e) && e@ == "speaker_idが未設定です"@),
            },
    {
        let id = match self.speaker_id {
            Some(id) => id,
            None => {
                return Err(owned("speaker_idが未設定です"));
            },
        };
        let mut s = self.base_url.clone();
        s.append("/audio_query?text=");
        let enc = urlencoded(text);
        s.append(enc.as_str());
        s.append("&speaker=");
        push_decimal(&mut s, id as u64);
        Ok(s)
    }

    /// Where to ask for the synthesis; an error where no speaker has been chosen.
    pub fn synthesis_url(&self) -> (res: Result<String, String>)
        ensures
            match self.speaker_id {
                Some(id) => (res matches Ok(u) && u@ == self.base_url@ + "/synthesis?speaker="@
                    + decimal(id as nat)),
                None => (res matches Err(e) && e@ == "speaker_idが未設定です"@),
            },
    {
        let id = match self.speaker_id {
            Some(id) => id,
            None => {
                return Err(owned("speaker_idが未設定です"));
            },
        };
        let mut s = self.base_url.clone();
        s.append("/synthesis?speaker=");
        push_decimal(&mut s, id as u64);
        Ok(s)
    }
}

} // verus!
