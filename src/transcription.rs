use vstd::prelude::*;
use vstd::string::StrSliceExecFns;
use vstd::string::StringExecFns;
use crate::args::{owned, push_str_arg, views};
use crate::text::{decimal, push_decimal};

verus! {

/// The text a speech-to-text service returned.
#[derive(Debug, Clone)]
pub struct TranscriptionResponse {
    pub text: String,
}

/// A character of Unicode's White_Space property.
pub open spec fn is_space(c: char) -> bool {
    ||| '\u{9}' <= c <= '\u{d}'
    ||| c == ' '
    ||| c == '\u{85}'
    ||| c == '\u{a0}'
    ||| c == '\u{1680}'
    ||| '\u{2000}' <= c <= '\u{200a}'
    ||| c == '\u{2028}'
    ||| c == '\u{2029}'
    ||| c == '\u{202f}'
    ||| c == '\u{205f}'
    ||| c == '\u{3000}'
}

pub open spec fn trim_front(s: Seq<char>) -> Seq<char>
    decreases s.len(),
{
    if s.len() > 0 && is_space(s[0]) { trim_front(s.skip(1)) } else { s }
}

pub open spec fn trim_back(s: Seq<char>) -> Seq<char>
    decreases s.len(),
{
    if s.len() > 0 && is_space(s.last()) { trim_back(s.drop_last()) } else { s }
}

/// `s` without the white space around it.
pub open spec fn trimmed(s: Seq<char>) -> Seq<char> {
    trim_back(trim_front(s))
}

/// The engine arguments that print the type of the first audio stream of `path`.
pub open spec fn audio_probe_args(path: Seq<char>) -> Seq<Seq<char>> {
    seq![
        "-v"@, "error"@, "-select_streams"@, "a:0"@, "-show_entries"@, "stream=codec_type"@,
        "-of"@, "default=noprint_wrappers=1:nokey=1"@, path,
    ]
}

/// The engine arguments that extract the audio of `video` as mono 16 kHz MP3.
pub open spec fn extract_args(video: Seq<char>, audio: Seq<char>) -> Seq<Seq<char>> {
    seq![
        "-i"@, video, "-vn"@, "-acodec"@, "libmp3lame"@, "-ac"@, "1"@, "-ar"@, "16000"@,
        "-b:a"@, "64k"@, "-y"@, audio,
    ]
}

/// The temporary audio file of an extraction made at `millis`.
pub open spec fn audio_path(millis: nat) -> Seq<char> {
    "/tmp/clipforge_audio_"@ + decimal(millis) + ".mp3"@
}

fn space_at(s: &str, i: usize) -> (r: bool)
    requires
        i < s@.len(),
    ensures
        r == is_space(s@[i as int]),
{
    let c = s.get_char(i);
    ('\u{9}' <= c && c <= '\u{d}') || c == ' ' || c == '\u{85}' || c == '\u{a0}' || c == '\u{1680}'
        || ('\u{2000}' <= c && c <= '\u{200a}') || c == '\u{2028}' || c == '\u{2029}' || c == '\u{202f}'
        || c == '\u{205f}' || c == '\u{3000}'
}

/// Whether the audio probe printed that the file has an audio stream.
pub fn has_audio_stream(probe_output: &str) -> (r: bool)
    ensures
        r == (trimmed(probe_output@) == "audio"@),
{
    let ghost s = probe_output@;
    let n = probe_output.unicode_len();
    let mut i: usize = 0;
    assert(s.skip(0) =~= s);
    while i < n && space_at(probe_output, i)
        invariant
            s == probe_output@,
            i <= n == s.len(),
            trim_front(s) == trim_front(s.skip(i as int)),
        decreases n - i,
    {
        assert(s.skip(i as int)[0] == s[i as int]);
        assert(s.skip(i as int).skip(1) =~= s.skip(i + 1));
        i = i + 1;
    }
    proof {
        if i < n {
            assert(s.skip(i as int)[0] == s[i as int]);
        } else {
            assert(s.skip(i as int).len() == 0);
        }
        assert(s.skip(i as int) =~= s.subrange(i as int, n as int));
    }
    let mut j: usize = n;
    while j > i && space_at(probe_output, j - 1)
        invariant
            s == probe_output@,
            i <= j <= n == s.len(),
            trimmed(s) == trim_back(s.subrange(i as int, j as int)),
        decreases j - i,
    {
        assert(s.subrange(i as int, j as int).last() == s[j - 1]);
        assert(s.subrange(i as int, j as int).drop_last() =~= s.subrange(i as int, j - 1));
        j = j - 1;
    }
    let ghost t = s.subrange(i as int, j as int);
    proof {
        if j > i {
            assert(t.last() == s[j - 1]);
        }
        assert(trimmed(s) == t);
        reveal_strlit("audio");
    }
    if j - i != 5 {
        return false;
    }
    let a = probe_output.get_char(i);
    let b = probe_output.get_char(i + 1);
    let c = probe_output.get_char(i + 2);
    let d = probe_output.get_char(i + 3);
    let e = probe_output.get_char(i + 4);
    let r = a == 'a' && b == 'u' && c == 'd' && d == 'i' && e == 'o';
    proof {
        assert(t[0] == a && t[1] == b && t[2] == c && t[3] == d && t[4] == e);
        if r {
            assert(t =~= "audio"@);
        } else {
            assert(t != "audio"@);
        }
    }
    r
}

/// The arguments that probe `path` for an audio stream.
pub fn audio_probe_command(path: &str) -> (r: Vec<String>)
    ensures
        views(r@) == audio_probe_args(path@),
{
    let mut v: Vec<String> = Vec::new();
    push_str_arg(&mut v, "-v");
    push_str_arg(&mut v, "error");
    push_str_arg(&mut v, "-select_streams");
    push_str_arg(&mut v, "a:0");
    push_str_arg(&mut v, "-show_entries");
    push_str_arg(&mut v, "stream=codec_type");
    push_str_arg(&mut v, "-of");
    push_str_arg(&mut v, "default=noprint_wrappers=1:nokey=1");
    push_str_arg(&mut v, path);
    assert(views(v@) =~= audio_probe_args(path@));
    v
}

/// The temporary audio file for an extraction made at `millis`.
pub fn audio_file(millis: u64) -> (r: String)
    ensures
        r@ == audio_path(millis as nat),
{
    let mut s = owned("/tmp/clipforge_audio_");
    push_decimal(&mut s, millis);
    s.append(".mp3");
    s
}

/// Decides the extraction of the audio of `video_path` into `audio_path`, given
/// what the audio probe printed: the engine arguments, or a refusal where the
/// video has no audio stream.
pub fn extract_audio(video_path: &str, probe_output: &str, audio_path: &str) -> (r: Result<Vec<String>, String>)
    ensures
        r is Ok <==> trimmed(probe_output@) == "audio"@,
        r matches Ok(args) ==> views(args@) == extract_args(video_path@, audio_path@),
{
    if !has_audio_stream(probe_output) {
        return Err(owned("This video has no audio track to transcribe. Please use a video with audio."));
    }
    let mut v: Vec<String> = Vec::new();
    push_str_arg(&mut v, "-i");
    push_str_arg(&mut v, video_path);
    push_str_arg(&mut v, "-vn");
    push_str_arg(&mut v, "-acodec");
    push_str_arg(&mut v, "libmp3lame");
    push_str_arg(&mut v, "-ac");
    push_str_arg(&mut v, "1");
    push_str_arg(&mut v, "-ar");
    push_str_arg(&mut v, "16000");
    push_str_arg(&mut v, "-b:a");
    push_str_arg(&mut v, "64k");
    push_str_arg(&mut v, "-y");
    push_str_arg(&mut v, audio_path);
    assert(views(v@) =~= extract_args(video_path@, audio_path@));
    Ok(v)
}

} // verus!
