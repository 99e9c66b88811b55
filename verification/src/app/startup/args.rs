//! What the command line asks for, and what the application makes of it.

use vstd::prelude::*;

verus! {

/// The command line as it was given.
#[derive(Debug, PartialEq, Eq)]
pub struct Args {
    /// The main directory, which holds the collection files, the
    /// configuration file and the log file.
    pub directory: Option<String>,
    pub command: Option<Command>,
    /// Whether changes are kept in memory only.
    pub dry_run: bool,
}

#[derive(Debug, PartialEq, Eq)]
pub enum Command {
    /// Imports a collection or a request from another file format.
    Import { import_type: ImportType },
}

#[derive(Debug, PartialEq, Eq)]
pub enum ImportType {
    /// A Postman v2.1.0 file.
    Postman {
        import_path: String,
        /// The depth below which nested collections are no longer created.
        max_depth: Option<u16>,
    },
    /// A cURL file.
    Curl {
        import_path: String,
        /// The collection that gets the request.
        collection_name: String,
        /// The name of the request; the name of the file where there is none.
        request_name: Option<String>,
        /// Whether files in directories below are read too.
        recursive: bool,
        /// The depth below which nested collections are no longer created.
        max_depth: Option<u16>,
    },
}

/// What the application was started with.
#[derive(Debug, PartialEq, Eq)]
pub struct ParsedArgs {
    pub directory: String,
    /// Whether the directory came from the environment, not the command line.
    pub is_directory_from_env: bool,
    pub command: Option<Command>,
    /// Whether changes are written to the files.
    pub should_save: bool,
}

/// Why the application cannot start.
#[derive(Debug, Clone, Copy, PartialEq, Eq, Structural)]
pub enum ArgsError {
    /// Neither the command line nor the environment names a directory.
    NoDirectoryProvided,
}

impl ArgsError {
    /// The message shown for the error.
    pub fn to_string(&self) -> (message: String)
        ensures
            message@
                == "No directory provided, provide one either with `--directory <dir>` or via the environment variable `ATAC_MAIN_DIR`"@,
    {
        "No directory provided, provide one either with `--directory <dir>` or via the environment variable `ATAC_MAIN_DIR`".to_string()
    }
}

impl ParsedArgs {
    /// What the application is started with: the directory of the command
    /// line or, where it gives none, the directory of the environment. Changes
    /// are saved unless a dry run was asked for.
    pub fn new(args: Args, env_directory: Option<String>) -> (parsed: Result<ParsedArgs, ArgsError>)
        ensures
            match (args.directory, env_directory) {
                (Some(directory), _) => parsed == Ok::<ParsedArgs, ArgsError>(
                    ParsedArgs {
                        directory: directory,
                        is_directory_from_env: false,
                        command: args.command,
                        should_save: !args.dry_run,
                    },
                ),
                (None, Some(directory)) => parsed == Ok::<ParsedArgs, ArgsError>(
                    ParsedArgs {
                        directory: directory,
                        is_directory_from_env: true,
                        command: args.command,
                        should_save: !args.dry_run,
                    },
                ),
                (None, None) => parsed == Err::<ParsedArgs, ArgsError>(
                    ArgsError::NoDirectoryProvided,
                ),
            },
    {
        let (directory, is_directory_from_env) = match args.directory {
            Some(directory) => (directory, false),
            None => match env_directory {
                Some(directory) => (directory, true),
                None => {
                    return Err(ArgsError::NoDirectoryProvided);
                },
            },
        };
        Ok(
            ParsedArgs {
                directory,
                is_directory_from_env,
                command: args.command,
                should_save: !args.dry_run,
            },
        )
    }
}

} // verus!
