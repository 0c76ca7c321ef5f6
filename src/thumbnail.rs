use vstd::prelude::*;
use vstd::string::StringExecFns;
use crate::args::{owned, push_str_arg, views};
use crate::errors::{ErrorKind, VideoError};

verus! {

/// The MD5 digest of the UTF-8 bytes of a text.
pub uninterp spec fn md5_of(text: Seq<char>) -> Seq<u8>;

/// Relies on md5::compute: the 16-byte digest of the bytes of `text`.
#[verifier::external_body]
fn md5_digest(text: &str) -> (r: Vec<u8>)
    ensures
        r@ == md5_of(text@),
        r@.len() == 16,
{
    md5::compute(text).0.to_vec()
}

/// The lower-case hexadecimal digit of `d`.
pub open spec fn hex_char(d: nat) -> char {
    if d == 0 { '0' }
    else if d == 1 { '1' }
    else if d == 2 { '2' }
    else if d == 3 { '3' }
    else if d == 4 { '4' }
    else if d == 5 { '5' }
    else if d == 6 { '6' }
    else if d == 7 { '7' }
    else if d == 8 { '8' }
    else if d == 9 { '9' }
    else if d == 10 { 'a' }
    else if d == 11 { 'b' }
    else if d == 12 { 'c' }
    else if d == 13 { 'd' }
    else if d == 14 { 'e' }
    else { 'f' }
}

/// Two lower-case hexadecimal digits per byte, high digit first.
pub open spec fn hex_text(b: Seq<u8>) -> Seq<char>
    decreases b.len(),
{
    if b.len() == 0 {
        Seq::<char>::empty()
    } else {
        hex_text(b.drop_last()) + seq![hex_char((b.last() / 16) as nat), hex_char((b.last() % 16) as nat)]
    }
}

/// Where the thumbnail of a file whose path has digest `digest` is kept.
pub open spec fn thumbnail_path(dir: Seq<char>, digest: Seq<u8>) -> Seq<char> {
    dir + "/"@ + hex_text(digest) + ".jpg"@
}

/// The engine arguments that take one frame at one second of `input`, scaled
/// to 320x180, into `output`.
pub open spec fn thumbnail_args(input: Seq<char>, output: Seq<char>) -> Seq<Seq<char>> {
    seq![
        "-y"@, "-i"@, input, "-ss"@, "1.0"@, "-vframes"@, "1"@, "-q:v"@, "2"@,
        "-vf"@, "scale=320:180"@, output,
    ]
}

fn hex_str(d: u8) -> (r: &'static str)
    requires
        d < 16,
    ensures
        r@ == seq![hex_char(d as nat)],
{
    proof {
        reveal_strlit("0"); reveal_strlit("1"); reveal_strlit("2"); reveal_strlit("3");
        reveal_strlit("4"); reveal_strlit("5"); reveal_strlit("6"); reveal_strlit("7");
        reveal_strlit("8"); reveal_strlit("9"); reveal_strlit("a"); reveal_strlit("b");
        reveal_strlit("c"); reveal_strlit("d"); reveal_strlit("e"); reveal_strlit("f");
    }
    if d == 0 { "0" }
    else if d == 1 { "1" }
    else if d == 2 { "2" }
    else if d == 3 { "3" }
    else if d == 4 { "4" }
    else if d == 5 { "5" }
    else if d == 6 { "6" }
    else if d == 7 { "7" }
    else if d == 8 { "8" }
    else if d == 9 { "9" }
    else if d == 10 { "a" }
    else if d == 11 { "b" }
    else if d == 12 { "c" }
    else if d == 13 { "d" }
    else if d == 14 { "e" }
    else { "f" }
}

/// The thumbnail path for a path digest, inside `dir`.
pub fn thumbnail_path_for_digest(dir: &str, digest: &Vec<u8>) -> (r: String)
    ensures
        r@ == thumbnail_path(dir@, digest@),
{
    let mut s = owned(dir);
    s.append("/");
    let ghost head = s@;
    let mut i: usize = 0;
    while i < digest.len()
        invariant
            i <= digest@.len(),
            s@ == head + hex_text(digest@.take(i as int)),
        decreases digest@.len() - i,
    {
        let b = digest[i];
        s.append(hex_str(b / 16));
        s.append(hex_str(b % 16));
        proof {
            let t = digest@.take(i + 1);
            assert(t.drop_last() =~= digest@.take(i as int));
            assert(t.last() == b);
        }
        i = i + 1;
        proof {
            assert(s@ =~= head + hex_text(digest@.take(i as int)));
        }
    }
    assert(digest@.take(digest@.len() as int) =~= digest@);
    s.append(".jpg");
    s
}

/// The thumbnail path of the file at `path`, inside `dir`: named by the digest
/// of the path, so each path has one.
pub fn thumbnail_file(dir: &str, path: &str) -> (r: String)
    ensures
        r@ == thumbnail_path(dir@, md5_of(path@)),
{
    let digest = md5_digest(path);
    thumbnail_path_for_digest(dir, &digest)
}

/// The arguments that extract the thumbnail of `input` into `output`.
pub fn thumbnail_command(input: &str, output: &str) -> (r: Vec<String>)
    ensures
        views(r@) == thumbnail_args(input@, output@),
{
    let mut v: Vec<String> = Vec::new();
    push_str_arg(&mut v, "-y");
    push_str_arg(&mut v, "-i");
    push_str_arg(&mut v, input);
    push_str_arg(&mut v, "-ss");
    push_str_arg(&mut v, "1.0");
    push_str_arg(&mut v, "-vframes");
    push_str_arg(&mut v, "1");
    push_str_arg(&mut v, "-q:v");
    push_str_arg(&mut v, "2");
    push_str_arg(&mut v, "-vf");
    push_str_arg(&mut v, "scale=320:180");
    push_str_arg(&mut v, output);
    assert(views(v@) =~= thumbnail_args(input@, output@));
    v
}

/// How to obtain a thumbnail.
#[derive(Debug)]
pub enum ThumbnailStep {
    Fail(VideoError),
    /// The thumbnail is already there.
    Ready(String),
    /// Run the engine with `args` to write the thumbnail to `output`, then pass
    /// the outcome to `thumbnail_result`.
    Make { output: String, args: Vec<String> },
}

/// Decides how to make the thumbnail of `path` in `dir`: `exists` is whether the
/// file exists, `engine_available` whether the engine can be run, `cached`
/// whether a file already stands at `thumbnail_file(dir, path)`, in which case
/// the engine is not run again. Unlike a probe, a missing engine is a failure.
pub fn generate_thumbnail(path: &str, dir: &str, exists: bool, engine_available: bool, cached: bool) -> (r: ThumbnailStep)
    ensures
        !exists ==> (r matches ThumbnailStep::Fail(e) && e.kind == ErrorKind::FileNotFound),
        exists && !engine_available ==> (r matches ThumbnailStep::Fail(e) && e.kind == ErrorKind::EngineMissing),
        exists && engine_available && cached ==> (r matches ThumbnailStep::Ready(output)
            && output@ == thumbnail_path(dir@, md5_of(path@))),
        exists && engine_available && !cached ==> (r matches ThumbnailStep::Make { output, args }
            && output@ == thumbnail_path(dir@, md5_of(path@))
            && views(args@) == thumbnail_args(path@, output@)),
{
    if !exists {
        return ThumbnailStep::Fail(VideoError::new(ErrorKind::FileNotFound, owned("Video file not found")));
    }
    if !engine_available {
        return ThumbnailStep::Fail(VideoError::new(
            ErrorKind::EngineMissing,
            owned("FFmpeg not found. Please install FFmpeg to generate thumbnails."),
        ));
    }
    let output = thumbnail_file(dir, path);
    if cached {
        return ThumbnailStep::Ready(output);
    }
    let args = thumbnail_command(path, output.as_str());
    ThumbnailStep::Make { output, args }
}

/// Judges a thumbnail run: the thumbnail's path on success, else the engine's
/// error stream.
pub fn thumbnail_result(output: String, success: bool, stderr: &str) -> (r: Result<String, VideoError>)
    ensures
        success ==> (r matches Ok(p) && p@ == output@),
        !success ==> (r matches Err(e) && e.kind == ErrorKind::ConversionError
            && e.message@ == "FFmpeg thumbnail generation failed: "@ + stderr@),
{
    if success {
        Ok(output)
    } else {
        let mut msg = owned("FFmpeg thumbnail generation failed: ");
        msg.append(stderr);
        Err(VideoError::new(ErrorKind::ConversionError, msg))
    }
}

} // verus!
