//! Which files of the sounds folder are offered as alarm sounds.
use vstd::prelude::*;

verus! {

/// How many leading bytes of a file the type detection looks at.
pub const HEADER_LIMIT: usize = 8192;

/// The MIME type that `infer::get` detects from the leading bytes of a file,
/// if it recognises them.
pub uninterp spec fn spec_infer_mime(header: Seq<u8>) -> Option<Seq<char>>;

/// The leading bytes of an MP3 file, as infer's `is_mp3` matcher tests them:
/// an ID3v2 tag (`ID3`) or an MPEG frame sync (`FF FB`, `FF F3` or `FF F2`),
/// in a header of at least three bytes.
pub open spec fn spec_mp3_header(header: Seq<u8>) -> bool {
    &&& header.len() > 2
    &&& {
        ||| (header[0] == 0x49u8 && header[1] == 0x44u8 && header[2] == 0x33u8)
        ||| (header[0] == 0xFFu8 && (header[1] == 0xFBu8 || header[1] == 0xF3u8 || header[1]
            == 0xF2u8))
    }
}

/// Calls `infer::get` on the leading bytes of a file and returns the MIME
/// type of the detected kind. The result is named by `spec_infer_mime`: the
/// crate's table of magic numbers is not stated here, except one fact of it:
/// the only kind with the type `audio/mpeg` is the one of the `is_mp3`
/// matcher, so that type comes only from an MP3 header.
#[verifier::external_body]
fn infer_mime_type(header: &[u8]) -> (mime: Option<String>)
    ensures
        match mime {
            Some(m) => spec_infer_mime(header@) == Some(m@),
            None => spec_infer_mime(header@) is None,
        },
        (mime matches Some(m) && m@ == sound_mime()) ==> spec_mp3_header(header@),
{
    match infer::get(header) {
        Some(kind) => Some(kind.mime_type().to_string()),
        None => None,
    }
}

/// The MIME type of the files offered as alarm sounds.
pub open spec fn sound_mime() -> Seq<char> {
    "audio/mpeg"@
}

/// A sound file offered to the user.
#[allow(non_snake_case)]
#[derive(Debug)]
pub struct TheSound {
    pub SoundPath: String,
    pub SoundName: String,
}

/// How a file of the sounds folder was classified.
#[derive(Debug)]
pub enum SoundEntry {
    /// An MP3 file, offered as a sound.
    Sound(TheSound),
    /// A file of another known type, left out.
    OtherType,
    /// A file of no known type, left out.
    Unrecognized,
}

/// Classifies the file at `path`, named `name`, from its leading bytes.
pub fn classify_sound(path: String, name: String, header: &[u8]) -> (entry: SoundEntry)
    ensures
        (entry is Unrecognized) <==> (spec_infer_mime(header@) is None),
        (entry is Sound) <==> (spec_infer_mime(header@) == Some(sound_mime())),
        entry matches SoundEntry::Sound(sound) ==> sound.SoundPath@ == path@
            && sound.SoundName@ == name@,
        entry is Sound ==> spec_mp3_header(header@),
{
    proof {
        reveal_strlit("audio/mpeg");
    }
    match infer_mime_type(header) {
        Some(mime) => {
            let expected = String::from_str("audio/mpeg");
            if mime == expected {
                SoundEntry::Sound(TheSound { SoundPath: path, SoundName: name })
            } else {
                SoundEntry::OtherType
            }
        },
        None => SoundEntry::Unrecognized,
    }
}

/// A file is offered as a sound only if its header is that of an MP3 file,
/// so a header that starts with neither `I` nor `FF` is never offered: a
/// WAV file (`RIFF`), an OGG file (`OggS`) or a FLAC file (`fLaC`) is left
/// out.
pub proof fn only_mp3_headers_are_offered(header: Seq<u8>)
    ensures
        header.len() > 0 && header[0] != 0x49u8 && header[0] != 0xFFu8 ==> !spec_mp3_header(header),
        header.len() <= 2 ==> !spec_mp3_header(header),
{
}

} // verus!
