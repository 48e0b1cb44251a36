//! Construction of the argument lists handed to the two external tools, and
//! of the frame file names the extractor is told to write.

use vstd::prelude::*;

use crate::digits::dec_digits;
use crate::digits::u32_to_dec;

verus! {

/// The extractor's filter expression: sample at `fps` frames per second and
/// scale to a width of 1280 pixels, height chosen to keep the aspect ratio.
pub open spec fn filter_spec(fps: u32) -> Seq<char> {
    "fps="@ + dec_digits(fps as nat) + ",scale=1280:-1"@
}

/// The output template handed to the extractor: a numbered file name inside
/// the temporary directory, `%d` standing for the frame index.
pub open spec fn template_spec(temp_dir: Seq<char>) -> Seq<char> {
    temp_dir + "/frame%d.png"@
}

/// The path of the frame file with the given index inside the temporary
/// directory, as the extractor names it.
pub open spec fn frame_path_spec(temp_dir: Seq<char>, index: nat) -> Seq<char> {
    temp_dir + "/frame"@ + dec_digits(index) + ".png"@
}

/// The full argument list for the extraction tool: input path, filter,
/// index-based frame naming, and the output template.
pub open spec fn extract_args_spec(input: Seq<char>, temp_dir: Seq<char>, fps: u32) -> Seq<
    Seq<char>,
> {
    seq![
        "-i"@,
        input,
        "-vf"@,
        filter_spec(fps),
        "-frame_pts"@,
        "1"@,
        template_spec(temp_dir),
    ]
}

/// The fixed arguments for the encoding tool: maximum quality, the requested
/// frame rate, a width of 1280 pixels, and the output path; the frame paths
/// follow these, in order.
pub open spec fn encode_args_spec(fps: u32, output: Seq<char>, frames: Seq<Seq<char>>) -> Seq<
    Seq<char>,
> {
    seq!["--quality"@, "100"@, "--fps"@, dec_digits(fps as nat), "--width"@, "1280"@, "-o"@, output]
        + frames
}

/// Builds the extractor's filter expression.
pub fn filter_arg(fps: u32) -> (r: String)
    ensures
        r@ == filter_spec(fps),
{
    let mut s = String::from_str("fps=");
    let n = u32_to_dec(fps);
    s.append(n.as_str());
    s.append(",scale=1280:-1");
    proof {
        assert(s@ =~= filter_spec(fps));
    }
    s
}

/// Builds the extractor's output template path.
pub fn frame_template(temp_dir: &str) -> (r: String)
    ensures
        r@ == template_spec(temp_dir@),
{
    let mut s = String::from_str(temp_dir);
    s.append("/frame%d.png");
    s
}

/// Builds the path of the frame file with the given index.
pub fn frame_file_path(temp_dir: &str, index: u32) -> (r: String)
    ensures
        r@ == frame_path_spec(temp_dir@, index as nat),
{
    let mut s = String::from_str(temp_dir);
    s.append("/frame");
    let n = u32_to_dec(index);
    s.append(n.as_str());
    s.append(".png");
    proof {
        assert(s@ =~= frame_path_spec(temp_dir@, index as nat));
    }
    s
}

/// Builds the extraction tool's argument list.
pub fn extraction_args(input: &str, temp_dir: &str, fps: u32) -> (r: Vec<String>)
    ensures
        r.deep_view() == extract_args_spec(input@, temp_dir@, fps),
{
    let mut v: Vec<String> = Vec::new();
    v.push(String::from_str("-i"));
    v.push(String::from_str(input));
    v.push(String::from_str("-vf"));
    v.push(filter_arg(fps));
    v.push(String::from_str("-frame_pts"));
    v.push(String::from_str("1"));
    v.push(frame_template(temp_dir));
    proof {
        assert(v.deep_view() =~~= extract_args_spec(input@, temp_dir@, fps));
    }
    v
}

/// Builds the encoding tool's argument list: the fixed options followed by
/// every frame path, in the order given.
pub fn encoding_args(fps: u32, output: &str, frames: &Vec<String>) -> (r: Vec<String>)
    ensures
        r.deep_view() == encode_args_spec(fps, output@, frames.deep_view()),
{
    let mut v: Vec<String> = Vec::new();
    v.push(String::from_str("--quality"));
    v.push(String::from_str("100"));
    v.push(String::from_str("--fps"));
    v.push(u32_to_dec(fps));
    v.push(String::from_str("--width"));
    v.push(String::from_str("1280"));
    v.push(String::from_str("-o"));
    v.push(String::from_str(output));
    proof {
        assert(v.deep_view() =~~= encode_args_spec(fps, output@, Seq::<Seq<char>>::empty()));
    }
    let ghost prefix = v.deep_view();
    let mut i: usize = 0;
    while i < frames.len()
        invariant
            i <= frames.len(),
            v.deep_view() =~~= prefix + frames.deep_view().take(i as int),
        decreases frames.len() - i,
    {
        let ghost prev = v.deep_view();
        let c = frames[i].clone();
        proof {
            assert(c.deep_view() == frames.deep_view()[i as int]);
        }
        v.push(c);
        proof {
            assert(v.deep_view() =~~= prev.push(frames.deep_view()[i as int]));
            assert(frames.deep_view().take(i + 1 as int) =~~= frames.deep_view().take(i as int).push(
                frames.deep_view()[i as int],
            ));
        }
        i = i + 1;
    }
    proof {
        assert(frames.deep_view().take(frames.len() as int) =~~= frames.deep_view());
        assert(v.deep_view() =~~= encode_args_spec(fps, output@, frames.deep_view()));
    }
    v
}

} // verus!
