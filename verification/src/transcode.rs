//! The fixed transcoder command line. The conversion itself is the external
//! transcoder's job; what is this crate's to get right is the exact argument
//! template it is invoked with: read the input file, select the opus codec,
//! write the output file, overwrite without asking.

use vstd::prelude::*;

verus! {

/// The program the conversion is delegated to.
pub open spec fn transcoder_program() -> Seq<char> {
    "ffmpeg"@
}

/// The fixed argument template of one transcoder invocation:
/// `-i <input> -acodec libopus <output> -y`.
pub open spec fn transcoder_args(input: Seq<char>, output: Seq<char>) -> Seq<Seq<char>> {
    seq!["-i"@, input, "-acodec"@, "libopus"@, output, "-y"@]
}

/// The transcoder program's name, for spawning it.
pub fn transcoder_program_name() -> (r: String)
    ensures
        r@ == transcoder_program(),
{
    "ffmpeg".to_owned()
}

/// Builds the transcoder's argument vector for one conversion, exactly after
/// the template [`transcoder_args`].
pub fn transcoder_command_args(input: &str, output: &str) -> (r: Vec<String>)
    ensures
        r.deep_view() == transcoder_args(input@, output@),
{
    let mut r: Vec<String> = Vec::new();
    r.push("-i".to_owned());
    r.push(input.to_owned());
    r.push("-acodec".to_owned());
    r.push("libopus".to_owned());
    r.push(output.to_owned());
    r.push("-y".to_owned());
    proof {
        assert(r.deep_view() =~= transcoder_args(input@, output@));
    }
    r
}

} // verus!
