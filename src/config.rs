use vstd::prelude::*;

verus! {

/// What a search needs: the text to look for, the file to look in, and
/// whether letter case must match exactly.
#[derive(Debug)]
pub struct Config {
    pub filename: String,
    pub query: String,
    pub case_sensitive: bool,
}

/// Why a configuration could not be built.
#[derive(Debug, PartialEq, Eq, Structural)]
pub enum ConfigError {
    /// Fewer than two positional arguments after the program name.
    InvalidArguments,
}

impl ConfigError {
    /// The human-readable description of the error.
    pub fn message(&self) -> (r: &'static str)
        ensures
            r@ == "Not enough arguments"@,
    {
        "Not enough arguments"
    }
}

impl Config {
    /// Builds a configuration from the process arguments (program name first,
    /// then the query, then the file name). `case_sensitive` is decided by the
    /// caller, from the environment.
    pub fn new(args: &[String], case_sensitive: bool) -> (r: Result<Config, ConfigError>)
        ensures
            args@.len() < 3 <==> r is Err,
            r is Err ==> r == Err::<Config, ConfigError>(ConfigError::InvalidArguments),
            r is Ok ==> r->Ok_0.query@ == args@[1]@ && r->Ok_0.filename@ == args@[2]@
                && r->Ok_0.case_sensitive == case_sensitive,
    {
        if args.len() < 3 {
            return Err(ConfigError::InvalidArguments);
        }
        let query = args[1].clone();
        let filename = args[2].clone();
        Ok(Config { query, filename, case_sensitive })
    }
}

} // verus!
