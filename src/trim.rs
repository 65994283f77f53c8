use vstd::prelude::*;

verus! {

/// The external encoder that produces a trimmed copy of the input.
pub const ENCODER_PROGRAM: &'static str = "ffmpeg";

/// How the file to upload is produced from the input file.
pub enum CutPlan {
    /// No bound was given: the input is copied to the output verbatim.
    Copy,
    /// The encoder is run with these arguments.
    Encode { args: Vec<String> },
}

/// The views of a sequence of strings.
pub open spec fn string_views(v: Seq<String>) -> Seq<Seq<char>> {
    v.map_values(|s: String| s@)
}

/// The encoder's arguments:
/// `-y -i <input> [-ss <start>] [-to <end>] -c copy <output>`.
pub open spec fn encoder_args_spec(
    input: Seq<char>,
    output: Seq<char>,
    start: Option<Seq<char>>,
    end: Option<Seq<char>>,
) -> Seq<Seq<char>> {
    let head = seq!["-y"@, "-i"@, input];
    let with_start = match start {
        Some(s) => head + seq!["-ss"@, s],
        None => head,
    };
    let with_end = match end {
        Some(e) => with_start + seq!["-to"@, e],
        None => with_start,
    };
    with_end + seq!["-c"@, "copy"@, output]
}

/// The view of an optional borrowed string.
pub open spec fn opt_view(o: Option<&String>) -> Option<Seq<char>> {
    match o {
        Some(s) => Some(s@),
        None => None,
    }
}

/// Builds the encoder's argument list for a clip of `input` written to `output`.
pub fn encoder_args(input: &str, output: &str, start: Option<&String>, end: Option<&String>) -> (r:
    Vec<String>)
    ensures
        string_views(r@) == encoder_args_spec(input@, output@, opt_view(start), opt_view(end)),
{
    let mut args: Vec<String> = Vec::new();
    args.push(String::from_str("-y"));
    args.push(String::from_str("-i"));
    args.push(String::from_str(input));
    let ghost head = seq!["-y"@, "-i"@, input@];
    assert(string_views(args@) =~= head);
    let ghost with_start = head;
    if let Some(s) = start {
        args.push(String::from_str("-ss"));
        args.push(s.clone());
        proof {
            with_start = head + seq!["-ss"@, s@];
        }
    }
    assert(string_views(args@) =~= with_start);
    let ghost with_end = with_start;
    if let Some(e) = end {
        args.push(String::from_str("-to"));
        args.push(e.clone());
        proof {
            with_end = with_start + seq!["-to"@, e@];
        }
    }
    assert(string_views(args@) =~= with_end);
    args.push(String::from_str("-c"));
    args.push(String::from_str("copy"));
    args.push(String::from_str(output));
    assert(string_views(args@) =~= with_end + seq!["-c"@, "copy"@, output@]);
    args
}

/// Decides how the upload file is produced: a verbatim copy when neither
/// bound is given, otherwise an encoder run that clips the input.
pub fn cut_file(input: &str, output: &str, start: Option<&String>, end: Option<&String>) -> (r:
    CutPlan)
    ensures
        (r is Copy) <==> (start is None && end is None),
        r matches CutPlan::Encode { args } ==> string_views(args@) == encoder_args_spec(
            input@,
            output@,
            opt_view(start),
            opt_view(end),
        ),
{
    if start.is_none() && end.is_none() {
        CutPlan::Copy
    } else {
        CutPlan::Encode { args: encoder_args(input, output, start, end) }
    }
}

/// A value that could be mistaken for the start or end flag.
pub open spec fn is_bound_flag(v: Seq<char>) -> bool {
    v == "-ss"@ || v == "-to"@
}

/// The encoder always receives `-y` first and `-c copy` right before the
/// output; `-ss` is among its arguments exactly when a start is given, with
/// the start right after it, and `-to` exactly when an end is given, with the
/// end right after it. (A path or bound that is itself `-ss` or `-to` would
/// show the flag regardless, so those are left out.)
pub proof fn lemma_encoder_flags(
    input: Seq<char>,
    output: Seq<char>,
    start: Option<Seq<char>>,
    end: Option<Seq<char>>,
)
    requires
        !is_bound_flag(input),
        !is_bound_flag(output),
        start matches Some(s) ==> !is_bound_flag(s),
        end matches Some(e) ==> !is_bound_flag(e),
    ensures
        ({
            let a = encoder_args_spec(input, output, start, end);
            &&& a[0] == "-y"@
            &&& a.len() >= 6
            &&& a[a.len() - 3] == "-c"@
            &&& a[a.len() - 2] == "copy"@
            &&& a[a.len() - 1] == output
            &&& a.contains("-ss"@) <==> start is Some
            &&& a.contains("-to"@) <==> end is Some
            &&& (start matches Some(s) ==> exists|i: int|
                0 <= i < a.len() - 1 && #[trigger] a[i] == "-ss"@ && a[i + 1] == s)
            &&& (end matches Some(e) ==> exists|i: int|
                0 <= i < a.len() - 1 && #[trigger] a[i] == "-to"@ && a[i + 1] == e)
        }),
{
    reveal_strlit("-y");
    reveal_strlit("-i");
    reveal_strlit("-ss");
    reveal_strlit("-to");
    reveal_strlit("-c");
    reveal_strlit("copy");
    let a = encoder_args_spec(input, output, start, end);
    let head = seq!["-y"@, "-i"@, input];
    let with_start = match start {
        Some(s) => head + seq!["-ss"@, s],
        None => head,
    };
    let with_end = match end {
        Some(e) => with_start + seq!["-to"@, e],
        None => with_start,
    };
    assert(a == with_end + seq!["-c"@, "copy"@, output]);
    assert("-ss"@ != "-to"@ && "-ss"@ != "-y"@ && "-ss"@ != "-i"@ && "-ss"@ != "-c"@ && "-ss"@
        != "copy"@) by {
        assert("-ss"@[1] != "-to"@[1]);
        assert("-ss"@.len() != "-y"@.len());
        assert("-ss"@.len() != "-i"@.len());
        assert("-ss"@.len() != "-c"@.len());
        assert("-ss"@[0] != "copy"@[0]);
    }
    assert("-to"@ != "-y"@ && "-to"@ != "-i"@ && "-to"@ != "-c"@ && "-to"@ != "copy"@) by {
        assert("-to"@.len() != "-y"@.len());
        assert("-to"@.len() != "-i"@.len());
        assert("-to"@.len() != "-c"@.len());
        assert("-to"@[0] != "copy"@[0]);
    }
    if let Some(s) = start {
        assert(a[3] == "-ss"@ && a[4] == s);
    }
    if let Some(e) = end {
        let i = with_start.len() as int;
        assert(a[i] == "-to"@ && a[i + 1] == e);
    }
}

} // verus!
