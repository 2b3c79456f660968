//! The arguments of the table function: path patterns, and the files that
//! they resolve to.

use crate::exception::{ErrorCode, ErrorKind, ErrorView};
use crate::text::frame;
use vstd::prelude::*;
use vstd::utf8::{decode_utf8, valid_utf8};

verus! {

/// A literal argument of a table function call.
#[derive(Debug)]
pub enum DataValue {
    Null,
    Boolean(bool),
    Int64(i64),
    UInt64(u64),
    String(Vec<u8>),
}

/// What walking the file system for one pattern met: a path that matches,
/// or the text of the error that reading a directory ended in.
pub type GlobEntry = Result<String, String>;

/// The characters of a string that may be missing.
pub open spec fn optional_text(string: Option<String>) -> Option<Seq<char>> {
    match string {
        Some(s) => Some(s@),
        None => None,
    }
}

/// The characters of each string, in order.
pub open spec fn texts(strings: Seq<String>) -> Seq<Seq<char>> {
    strings.map_values(|s: String| s@)
}

/// `std::str::from_utf8` accepts exactly the byte strings that are valid
/// UTF-8, and the text it returns is those bytes decoded.
#[verifier::external_body]
fn utf8_text(bytes: &[u8]) -> (r: Option<&str>)
    ensures
        r.is_some() == valid_utf8(bytes@),
        r matches Some(s) ==> s@ == decode_utf8(bytes@),
{
    std::str::from_utf8(bytes).ok()
}

/// The message of the syntax error that `glob::Pattern::new` finds in a
/// pattern, or nothing where the pattern is well formed.
pub uninterp spec fn pattern_syntax_error(pattern: Seq<char>) -> Option<Seq<char>>;

/// `glob::Pattern::new` compiles a pattern or reports a syntax error; which
/// of the two, and the error's text, depend on the pattern alone (and on
/// what the target platform takes for a path separator).
#[verifier::external_body]
fn check_pattern(pattern: &str) -> (r: Option<String>)
    ensures
        r.is_some() == pattern_syntax_error(pattern@).is_some(),
        r matches Some(m) ==> pattern_syntax_error(pattern@) == Some(m@),
{
    match glob::Pattern::new(pattern) {
        Ok(_) => None,
        Err(e) => Some(e.to_string()),
    }
}

/// The pattern that an argument holds: the text of a string argument.
/// Any other argument, and a string that is no valid UTF-8, holds none.
pub open spec fn pattern_of(arg: DataValue) -> Option<Seq<char>> {
    match arg {
        DataValue::String(bytes) => if valid_utf8(bytes@) {
            Some(decode_utf8(bytes@))
        } else {
            None
        },
        _ => None,
    }
}

/// The paths that a walk met before its first error, and that error.
pub ghost struct Walked {
    pub paths: Seq<Seq<char>>,
    pub failure: Option<Seq<char>>,
}

/// Follows a walk up to its first error.
pub open spec fn walked(walk: Seq<GlobEntry>) -> Walked
    decreases walk.len(),
{
    if walk.len() == 0 {
        Walked { paths: Seq::empty(), failure: None }
    } else {
        match walk[0] {
            Err(e) => Walked { paths: Seq::empty(), failure: Some(e@) },
            Ok(p) => Walked {
                paths: seq![p@] + walked(walk.skip(1)).paths,
                failure: walked(walk.skip(1)).failure,
            },
        }
    }
}

/// The error for a call without permission to read local paths.
pub open spec fn insecure() -> ErrorView {
    ErrorView {
        kind: ErrorKind::SecurityDisabled,
        message: "Should enable `allow_insecure` to use table function `read_parquet`"@,
    }
}

/// The error for a call without arguments.
pub open spec fn no_arguments() -> ErrorView {
    ErrorView {
        kind: ErrorKind::BadArguments,
        message: "read_parquet needs at least one argument"@,
    }
}

/// The error for an argument that is no string.
pub open spec fn not_a_string() -> ErrorView {
    ErrorView {
        kind: ErrorKind::BadArguments,
        message: "read_parquet only accepts string arguments"@,
    }
}

/// The error for patterns that match no file.
pub open spec fn no_matches() -> ErrorView {
    ErrorView {
        kind: ErrorKind::BadArguments,
        message: "No matched files found for read_parquet"@,
    }
}

/// The error for a malformed pattern or a failed walk; `cause` says which.
pub open spec fn glob_failure(cause: Seq<char>) -> ErrorView {
    ErrorView { kind: ErrorKind::GlobExpansionFailed, message: "glob error: "@ + cause }
}

/// What one pattern adds to the files: the paths of its walk up to the
/// first error. It fails where the pattern is malformed, without a look at
/// the walk, and where the walk met an error.
pub open spec fn matches_of(syntax_error: Option<Seq<char>>, walk: Seq<GlobEntry>) -> Walked {
    match syntax_error {
        Some(m) => Walked { paths: Seq::empty(), failure: Some(m) },
        None => walked(walk),
    }
}

/// The error for a malformed pattern or a failed walk.
fn glob_error(cause: &str) -> (e: ErrorCode)
    ensures
        e@ == glob_failure(cause@),
{
    let message = frame("glob error: ", cause, "");
    assert(message@ =~= "glob error: "@ + cause@) by {
        reveal_strlit("");
    }
    ErrorCode { kind: ErrorKind::GlobExpansionFailed, message }
}

/// Adds the matches of one pattern to `files`. `syntax_error` is what the
/// check of the pattern's syntax gave, `walk` what the walk for it met.
pub fn collect_matches(
    syntax_error: Option<String>,
    walk: &Vec<GlobEntry>,
    files: &mut Vec<String>,
) -> (r: Result<(), ErrorCode>)
    ensures
        texts(final(files)@) == texts(old(files)@) + matches_of(
            optional_text(syntax_error),
            walk@,
        ).paths,
        match r {
            Ok(_) => matches_of(optional_text(syntax_error), walk@).failure.is_none(),
            Err(e) => matches_of(optional_text(syntax_error), walk@).failure matches Some(
                cause,
            ) && e@ == glob_failure(cause),
        },
{
    let ghost before = files@;
    if let Some(m) = &syntax_error {
        assert(texts(files@) =~= texts(before) + Seq::<Seq<char>>::empty());
        return Err(glob_error(m.as_str()));
    }
    let mut i: usize = 0;
    assert(walk@.skip(0) =~= walk@);
    assert(texts(files@) =~= texts(before) + Seq::<Seq<char>>::empty());
    let ghost mut found: Seq<Seq<char>> = Seq::empty();
    while i < walk.len()
        invariant
            i <= walk.len(),
            syntax_error.is_none(),
            before == old(files)@,
            texts(files@) == texts(before) + found,
            walked(walk@).paths == found + walked(walk@.skip(i as int)).paths,
            walked(walk@).failure == walked(walk@.skip(i as int)).failure,
        decreases walk.len() - i,
    {
        let ghost rest = walk@.skip(i as int);
        assert(rest.skip(1) =~= walk@.skip(i + 1));
        assert(rest[0] == walk@[i as int]);
        match &walk[i] {
            Ok(path) => {
                let ghost held = files@;
                files.push(path.clone());
                proof {
                    assert(texts(files@) =~= texts(held).push(path@));
                    assert(found + (seq![path@] + walked(rest.skip(1)).paths) =~= found.push(path@)
                        + walked(rest.skip(1)).paths);
                    found = found.push(path@);
                    assert(texts(files@) =~= texts(before) + found);
                }
            },
            Err(cause) => {
                assert(found + Seq::<Seq<char>>::empty() =~= found);
                return Err(glob_error(cause.as_str()));
            },
        }
        i = i + 1;
    }
    assert(found + Seq::<Seq<char>>::empty() =~= found);
    Ok(())
}

/// The walk for the argument at `index`; an argument without a walk has an empty one.
pub open spec fn walk_at(walks: Seq<Vec<GlobEntry>>, index: int) -> Seq<GlobEntry> {
    if 0 <= index < walks.len() {
        walks[index]@
    } else {
        Seq::empty()
    }
}

/// The files that one argument names, or the error that it ends in: an
/// argument that holds no pattern is refused, and so is a malformed pattern
/// and a walk that met an error.
pub open spec fn argument_matches(arg: DataValue, walk: Seq<GlobEntry>) -> Result<
    Seq<Seq<char>>,
    ErrorView,
> {
    match pattern_of(arg) {
        None => Err(not_a_string()),
        Some(pattern) => match matches_of(pattern_syntax_error(pattern), walk).failure {
            Some(cause) => Err(glob_failure(cause)),
            None => Ok(matches_of(pattern_syntax_error(pattern), walk).paths),
        },
    }
}

/// The files that the arguments from `from` on name, in the order of the
/// arguments, or the error of the first argument that fails.
pub open spec fn matches_from(
    args: Seq<DataValue>,
    walks: Seq<Vec<GlobEntry>>,
    from: int,
) -> Result<Seq<Seq<char>>, ErrorView>
    decreases args.len() - from,
{
    if from < 0 || from >= args.len() {
        Ok(Seq::empty())
    } else {
        match argument_matches(args[from], walk_at(walks, from)) {
            Err(e) => Err(e),
            Ok(paths) => match matches_from(args, walks, from + 1) {
                Err(e) => Err(e),
                Ok(rest) => Ok(paths + rest),
            },
        }
    }
}

/// The files that a call of the table function reads. The call needs the
/// permission to read local paths, at least one argument, and at least one
/// file that matches.
pub open spec fn resolved_files(
    allow_insecure: bool,
    table_args: Option<Vec<DataValue>>,
    walks: Seq<Vec<GlobEntry>>,
) -> Result<Seq<Seq<char>>, ErrorView> {
    if !allow_insecure {
        Err(insecure())
    } else {
        match table_args {
            None => Err(no_arguments()),
            Some(args) => if args@.len() == 0 {
                Err(no_arguments())
            } else {
                match matches_from(args@, walks, 0) {
                    Err(e) => Err(e),
                    Ok(files) => if files.len() == 0 {
                        Err(no_matches())
                    } else {
                        Ok(files)
                    },
                }
            },
        }
    }
}

/// Resolves the arguments of a call to the files it reads. `walks` holds,
/// for each argument in turn, what the walk for its pattern met.
pub fn resolve_files(
    allow_insecure: bool,
    table_args: &Option<Vec<DataValue>>,
    walks: &Vec<Vec<GlobEntry>>,
) -> (r: Result<Vec<String>, ErrorCode>)
    ensures
        match r {
            Ok(files) => resolved_files(allow_insecure, *table_args, walks@) == Ok::<
                Seq<Seq<char>>,
                ErrorView,
            >(texts(files@)),
            Err(e) => resolved_files(allow_insecure, *table_args, walks@) == Err::<
                Seq<Seq<char>>,
                ErrorView,
            >(e@),
        },
{
    if !allow_insecure {
        return Err(
            ErrorCode::new(
                ErrorKind::SecurityDisabled,
                "Should enable `allow_insecure` to use table function `read_parquet`",
            ),
        );
    }
    let args = match table_args {
        None => {
            return Err(
                ErrorCode::new(ErrorKind::BadArguments, "read_parquet needs at least one argument"),
            );
        },
        Some(args) => args,
    };
    if args.len() == 0 {
        return Err(
            ErrorCode::new(ErrorKind::BadArguments, "read_parquet needs at least one argument"),
        );
    }
    let mut files: Vec<String> = Vec::with_capacity(args.len());
    let none: Vec<GlobEntry> = Vec::new();
    let mut i: usize = 0;
    assert(texts(files@) =~= Seq::<Seq<char>>::empty());
    while i < args.len()
        invariant
            i <= args.len(),
            none@.len() == 0,
            allow_insecure,
            args@.len() > 0,
            *table_args == Some(*args),
            match matches_from(args@, walks@, i as int) {
                Ok(rest) => matches_from(args@, walks@, 0) == Ok::<Seq<Seq<char>>, ErrorView>(
                    texts(files@) + rest,
                ),
                Err(e) => matches_from(args@, walks@, 0) == Err::<Seq<Seq<char>>, ErrorView>(e),
            },
        ensures
            i == args.len(),
            matches_from(args@, walks@, 0) == Ok::<Seq<Seq<char>>, ErrorView>(texts(files@)),
        decreases args.len() - i,
    {
        let walk = if i < walks.len() {
            &walks[i]
        } else {
            &none
        };
        assert(walk@ =~= walk_at(walks@, i as int));
        let text = match &args[i] {
            DataValue::String(bytes) => utf8_text(bytes.as_slice()),
            _ => None,
        };
        let pattern = match text {
            Some(pattern) => pattern,
            None => {
                return Err(
                    ErrorCode::new(
                        ErrorKind::BadArguments,
                        "read_parquet only accepts string arguments",
                    ),
                );
            },
        };
        let syntax_error = check_pattern(pattern);
        let ghost held = texts(files@);
        match collect_matches(syntax_error, walk, &mut files) {
            Ok(_) => {},
            Err(e) => {
                return Err(e);
            },
        }
        proof {
            let paths = matches_of(pattern_syntax_error(pattern@), walk@).paths;
            match matches_from(args@, walks@, i + 1) {
                Ok(rest) => {
                    assert(held + (paths + rest) =~= held + paths + rest);
                },
                Err(_) => {},
            }
        }
        i = i + 1;
    }
    if files.len() == 0 {
        return Err(
            ErrorCode::new(ErrorKind::BadArguments, "No matched files found for read_parquet"),
        );
    }
    Ok(files)
}

/// A permitted call without arguments is refused for its arguments.
pub proof fn lemma_arguments_are_required(
    table_args: Option<Vec<DataValue>>,
    walks: Seq<Vec<GlobEntry>>,
)
    requires
        table_args matches Some(args) ==> args@.len() == 0,
    ensures
        resolved_files(true, table_args, walks) == Err::<Seq<Seq<char>>, ErrorView>(
            no_arguments(),
        ),
        no_arguments().kind == ErrorKind::BadArguments,
{
}

/// Where the arguments resolve to files, each of them holds a well-formed pattern.
pub proof fn lemma_files_need_patterns(args: Seq<DataValue>, walks: Seq<Vec<GlobEntry>>, from: int)
    requires
        0 <= from,
        matches_from(args, walks, from) is Ok,
    ensures
        forall|i: int|
            from <= i < args.len() ==> ((#[trigger] pattern_of(args[i])) matches Some(pattern)
                && pattern_syntax_error(pattern).is_none()),
    decreases args.len() - from,
{
    if from < args.len() {
        lemma_files_need_patterns(args, walks, from + 1);
    }
}

/// A permitted call whose first argument is no string is refused for its arguments.
pub proof fn lemma_arguments_are_strings(args: Vec<DataValue>, walks: Seq<Vec<GlobEntry>>)
    requires
        args@.len() > 0,
        pattern_of(args@[0]).is_none(),
    ensures
        resolved_files(true, Some(args), walks) == Err::<Seq<Seq<char>>, ErrorView>(
            not_a_string(),
        ),
        not_a_string().kind == ErrorKind::BadArguments,
{
}

/// A permitted call whose patterns match no file is refused for its
/// arguments, with a message of its own.
pub proof fn lemma_matches_are_required(args: Vec<DataValue>, walks: Seq<Vec<GlobEntry>>)
    requires
        args@.len() > 0,
        matches_from(args@, walks, 0) == Ok::<Seq<Seq<char>>, ErrorView>(Seq::empty()),
    ensures
        resolved_files(true, Some(args), walks) == Err::<Seq<Seq<char>>, ErrorView>(no_matches()),
        no_matches().kind == ErrorKind::BadArguments,
        no_matches().message != no_arguments().message,
        no_matches().message != not_a_string().message,
{
    reveal_strlit("No matched files found for read_parquet");
    reveal_strlit("read_parquet needs at least one argument");
    reveal_strlit("read_parquet only accepts string arguments");
    assert("No matched files found for read_parquet"@[0] == 'N');
    assert("read_parquet needs at least one argument"@[0] == 'r');
    assert("read_parquet only accepts string arguments"@[0] == 'r');
}

} // verus!
