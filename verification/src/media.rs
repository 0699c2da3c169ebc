//! The media-transcoder command line: the fixed argument frame around an
//! operator-supplied option string. The subprocess itself runs outside;
//! what is assembled here decides exactly what it is told to do.
use vstd::prelude::*;

verus! {

/// What POSIX-shell word splitting yields on a command-line string: a
/// function of the string alone, `None` standing for the parse error an
/// unmatched quote raises.
pub uninterp spec fn shell_split_of(s: Seq<char>) -> Option<Seq<Seq<char>>>;

/// Relies on shell_words::split: it splits a command line into words by
/// POSIX shell rules (quote removal only, no expansions) and fails
/// exactly on an unmatched quote.
#[verifier::external_body]
fn split_command_words(s: &str) -> (r: Option<Vec<String>>)
    ensures
        match r {
            Some(words) => shell_split_of(s@) == Some(words@.map_values(|w: String| w@)),
            None => shell_split_of(s@) is None,
        },
{
    match shell_words::split(s) {
        Ok(words) => Some(words),
        Err(_) => None,
    }
}

pub open spec fn opt_string_view(o: Option<String>) -> Option<Seq<char>> {
    match o {
        Some(s) => Some(s@),
        None => None,
    }
}

/// The full transcoder argument list: quiet flags unless debugging, the
/// input (a URL, or the standard-input pipe), the caller's own words, and
/// the standard-output pipe.
pub open spec fn spec_ffmpeg_args(
    debug: bool,
    url_input: Option<Seq<char>>,
    words: Seq<Seq<char>>,
) -> Seq<Seq<char>> {
    (if debug {
        Seq::<Seq<char>>::empty()
    } else {
        seq!["-hide_banner"@, "-loglevel"@, "panic"@]
    }) + seq!["-i"@] + seq![
        match url_input {
            Some(u) => u,
            None => "pipe:0"@,
        },
    ] + words + seq!["pipe:1"@]
}

/// Frame an already split option list with the fixed arguments.
pub fn assemble_ffmpeg_args(debug: bool, url_input: Option<String>, words: Vec<String>) -> (r: Vec<
    String,
>)
    ensures
        r@.map_values(|a: String| a@) == spec_ffmpeg_args(
            debug,
            opt_string_view(url_input),
            words@.map_values(|w: String| w@),
        ),
{
    let ghost wv = words@.map_values(|w: String| w@);
    let ghost uv = opt_string_view(url_input);
    let mut args: Vec<String> = Vec::new();
    if !debug {
        args.push("-hide_banner".to_owned());
        args.push("-loglevel".to_owned());
        args.push("panic".to_owned());
    }
    args.push("-i".to_owned());
    match url_input {
        Some(u) => args.push(u),
        None => args.push("pipe:0".to_owned()),
    }
    let ghost head = args@.map_values(|a: String| a@);
    proof {
        assert(head =~= (if debug {
            Seq::<Seq<char>>::empty()
        } else {
            seq!["-hide_banner"@, "-loglevel"@, "panic"@]
        }) + seq!["-i"@] + seq![
            match uv {
                Some(u) => u,
                None => "pipe:0"@,
            },
        ]);
    }
    let mut words = words;
    args.append(&mut words);
    let ghost mid = args@.map_values(|a: String| a@);
    proof {
        assert(mid =~= head + wv);
    }
    args.push("pipe:1".to_owned());
    proof {
        assert(args@.map_values(|a: String| a@) =~= mid + seq!["pipe:1"@]);
        assert((head + wv) + seq!["pipe:1"@] =~= spec_ffmpeg_args(debug, uv, wv));
    }
    args
}

/// Build the transcoder argument list from the raw option string: `None`
/// exactly when the option string does not split as shell words.
pub fn ffmpeg_args(debug: bool, url_input: Option<String>, command: &str) -> (r: Option<
    Vec<String>,
>)
    ensures
        match r {
            Some(args) => shell_split_of(command@) is Some && args@.map_values(|a: String| a@)
                == spec_ffmpeg_args(
                debug,
                opt_string_view(url_input),
                shell_split_of(command@)->Some_0,
            ),
            None => shell_split_of(command@) is None,
        },
{
    let words = match split_command_words(command) {
        Some(words) => words,
        None => {
            return None;
        },
    };
    Some(assemble_ffmpeg_args(debug, url_input, words))
}

} // verus!
