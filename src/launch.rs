use vstd::prelude::*;

verus! {

/// What the command-line program is asked to do.
#[derive(Debug, PartialEq, Eq)]
pub enum Launch {
    /// Write the example checklist to `path`, inside the directory `dir`.
    WriteExample { dir: String, path: String },
    /// Open the checklist file at `path` and walk it.
    Open { path: String },
}

/// Why the options given do not say what to do.
#[derive(Debug, Clone, Copy, PartialEq, Eq, Structural)]
pub enum UsageError {
    /// The example was asked for without a checklist directory.
    ExampleNeedsDir,
    /// No checklist path was given.
    MissingPath,
}

/// The file that the example is written to, inside directory `dir`.
pub open spec fn example_path(dir: Seq<char>) -> Seq<char> {
    dir + "/example.list.json"@
}

/// Decides what to do from the options: with `example`, the directory is
/// required and the path is ignored; without it, the path is required.
pub fn plan_launch(example: bool, dir: Option<String>, path: Option<String>) -> (r: Result<Launch, UsageError>)
    ensures
        example ==> match dir {
            Some(d) => r matches Ok(Launch::WriteExample { dir: given, path: file })
                && given@ == d@ && file@ == example_path(d@),
            None => r == Err::<Launch, UsageError>(UsageError::ExampleNeedsDir),
        },
        !example ==> match path {
            Some(p) => r matches Ok(Launch::Open { path: q }) && q@ == p@,
            None => r == Err::<Launch, UsageError>(UsageError::MissingPath),
        },
{
    if example {
        match dir {
            Some(d) => {
                let mut p = d.clone();
                p.append("/example.list.json");
                Ok(Launch::WriteExample { dir: d, path: p })
            },
            None => Err(UsageError::ExampleNeedsDir),
        }
    } else {
        match path {
            Some(p) => Ok(Launch::Open { path: p }),
            None => Err(UsageError::MissingPath),
        }
    }
}

impl UsageError {
    /// The message shown for this error.
    pub fn message(&self) -> (r: String)
        ensures
            r@ == match *self {
                UsageError::ExampleNeedsDir => "-c is required with -e"@,
                UsageError::MissingPath => "Require a checklist path to work on"@,
            },
    {
        match self {
            UsageError::ExampleNeedsDir => String::from_str("-c is required with -e"),
            UsageError::MissingPath => String::from_str("Require a checklist path to work on"),
        }
    }
}

} // verus!
