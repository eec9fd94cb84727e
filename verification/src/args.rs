//! The typed parameters of the operation catalog.
//!
//! Every parameter of an operation is either one of these closed
//! enumerations, a bounded integer, or a string.  The two enumerations
//! whose variants name a token of the search executable (`FileType` and
//! `SortBy`) expose that token through `flag_value`, specified by a
//! matching spec function.

use vstd::prelude::*;
use vstd::string::StringExecFns;
use crate::accumulator::str_eq;
use crate::errors::OpError;

verus! {

/// The supported filters for file types.
#[derive(Clone, Copy, Debug, PartialEq, Eq, Structural)]
pub enum FileType {
    C,
    CPP,
    Config,
    CSharp,
    Go,
    Java,
    JavaScript,
    Json,
    JsonLines,
    Jupyter,
    License,
    Log,
    Lua,
    Markdown,
    OCaml,
    Org,
    PDF,
    Python,
    Rust,
    RustBuildDependency,
    Shell,
    SQL,
    Text,
    Toml,
    TypeScript,
    XML,
    Vim,
    Yaml,
    Zig,
}

impl FileType {
    /// The token the search executable expects after a file-type flag.
    pub open spec fn spec_flag_value(self) -> Seq<char> {
        match self {
            FileType::C => "c"@,
            FileType::CPP => "cpp"@,
            FileType::Config => "config"@,
            FileType::CSharp => "cs"@,
            FileType::Go => "go"@,
            FileType::Java => "java"@,
            FileType::JavaScript => "js"@,
            FileType::Json => "json"@,
            FileType::JsonLines => "jsonl"@,
            FileType::Jupyter => "jupyter"@,
            FileType::License => "license"@,
            FileType::Log => "log"@,
            FileType::Lua => "lua"@,
            FileType::Markdown => "markdown"@,
            FileType::OCaml => "ocaml"@,
            FileType::Org => "org"@,
            FileType::PDF => "pdf"@,
            FileType::Python => "py"@,
            FileType::Rust => "rust"@,
            FileType::RustBuildDependency => "d"@,
            FileType::Shell => "sh"@,
            FileType::SQL => "sql"@,
            FileType::Text => "txt"@,
            FileType::Toml => "toml"@,
            FileType::TypeScript => "ts"@,
            FileType::XML => "xml"@,
            FileType::Vim => "vim"@,
            FileType::Yaml => "yaml"@,
            FileType::Zig => "zig"@,
        }
    }

    pub fn flag_value(&self) -> (r: String)
        ensures
            r@ == self.spec_flag_value(),
    {
        match *self {
            FileType::C => String::from_str("c"),
            FileType::CPP => String::from_str("cpp"),
            FileType::Config => String::from_str("config"),
            FileType::CSharp => String::from_str("cs"),
            FileType::Go => String::from_str("go"),
            FileType::Java => String::from_str("java"),
            FileType::JavaScript => String::from_str("js"),
            FileType::Json => String::from_str("json"),
            FileType::JsonLines => String::from_str("jsonl"),
            FileType::Jupyter => String::from_str("jupyter"),
            FileType::License => String::from_str("license"),
            FileType::Log => String::from_str("log"),
            FileType::Lua => String::from_str("lua"),
            FileType::Markdown => String::from_str("markdown"),
            FileType::OCaml => String::from_str("ocaml"),
            FileType::Org => String::from_str("org"),
            FileType::PDF => String::from_str("pdf"),
            FileType::Python => String::from_str("py"),
            FileType::Rust => String::from_str("rust"),
            FileType::RustBuildDependency => String::from_str("d"),
            FileType::Shell => String::from_str("sh"),
            FileType::SQL => String::from_str("sql"),
            FileType::Text => String::from_str("txt"),
            FileType::Toml => String::from_str("toml"),
            FileType::TypeScript => String::from_str("ts"),
            FileType::XML => String::from_str("xml"),
            FileType::Vim => String::from_str("vim"),
            FileType::Yaml => String::from_str("yaml"),
            FileType::Zig => String::from_str("zig"),
        }
    }
}

/// The supported ways to sort search results.
#[derive(Clone, Copy, Debug, PartialEq, Eq, Structural)]
pub enum SortBy {
    Unsorted,
    Path,
    Modified,
    Accessed,
    Created,
}

impl SortBy {
    /// The token the search executable expects after a sort flag.
    pub open spec fn spec_flag_value(self) -> Seq<char> {
        match self {
            SortBy::Unsorted => "none"@,
            SortBy::Path => "path"@,
            SortBy::Modified => "modified"@,
            SortBy::Accessed => "accessed"@,
            SortBy::Created => "created"@,
        }
    }

    pub fn flag_value(&self) -> (r: String)
        ensures
            r@ == self.spec_flag_value(),
    {
        match *self {
            SortBy::Unsorted => String::from_str("none"),
            SortBy::Path => String::from_str("path"),
            SortBy::Modified => String::from_str("modified"),
            SortBy::Accessed => String::from_str("accessed"),
            SortBy::Created => String::from_str("created"),
        }
    }
}

/// The order in which to sort results.
#[derive(Clone, Copy, Debug, PartialEq, Eq, Structural)]
pub enum SortOrdering {
    Ascending,
    Descending,
}

/// Whether a setting should be enabled or not.
#[derive(Clone, Copy, Debug, PartialEq, Eq, Structural)]
pub enum Enabled {
    Yes,
    No,
}

/// The ways to treat case sensitivity.
#[derive(Clone, Copy, Debug, PartialEq, Eq, Structural)]
pub enum CaseSensitivity {
    IgnoreCase,
    CaseSensitive,
    SmartCase,
}

/// How far the search reaches into ignored, hidden, and binary files.
#[derive(Clone, Copy, Debug, PartialEq, Eq, Structural)]
pub enum Restriction {
    Default,
    IncludeIgnored,
    IncludeIgnoredHidden,
    IncludeIgnoredHiddenBinary,
}

/// How file paths will print: files included in the search, files with
/// at least one match, or files with no matches.
#[derive(Clone, Copy, Debug, PartialEq, Eq, Structural)]
pub enum FileDisplayMode {
    FilesIncluded,
    FilesWithMatch,
    FilesWithoutMatch,
}


impl FileType {
    /// The name of this variant, as the selection layer writes it.
    pub open spec fn spec_variant_name(self) -> Seq<char> {
        match self {
            FileType::C => "C"@,
            FileType::CPP => "CPP"@,
            FileType::Config => "Config"@,
            FileType::CSharp => "CSharp"@,
            FileType::Go => "Go"@,
            FileType::Java => "Java"@,
            FileType::JavaScript => "JavaScript"@,
            FileType::Json => "Json"@,
            FileType::JsonLines => "JsonLines"@,
            FileType::Jupyter => "Jupyter"@,
            FileType::License => "License"@,
            FileType::Log => "Log"@,
            FileType::Lua => "Lua"@,
            FileType::Markdown => "Markdown"@,
            FileType::OCaml => "OCaml"@,
            FileType::Org => "Org"@,
            FileType::PDF => "PDF"@,
            FileType::Python => "Python"@,
            FileType::Rust => "Rust"@,
            FileType::RustBuildDependency => "RustBuildDependency"@,
            FileType::Shell => "Shell"@,
            FileType::SQL => "SQL"@,
            FileType::Text => "Text"@,
            FileType::Toml => "Toml"@,
            FileType::TypeScript => "TypeScript"@,
            FileType::XML => "XML"@,
            FileType::Vim => "Vim"@,
            FileType::Yaml => "Yaml"@,
            FileType::Zig => "Zig"@,
        }
    }

    /// Whether a name denotes a variant.
    pub open spec fn is_variant_name(n: Seq<char>) -> bool {
        ||| n == "C"@
        ||| n == "CPP"@
        ||| n == "Config"@
        ||| n == "CSharp"@
        ||| n == "Go"@
        ||| n == "Java"@
        ||| n == "JavaScript"@
        ||| n == "Json"@
        ||| n == "JsonLines"@
        ||| n == "Jupyter"@
        ||| n == "License"@
        ||| n == "Log"@
        ||| n == "Lua"@
        ||| n == "Markdown"@
        ||| n == "OCaml"@
        ||| n == "Org"@
        ||| n == "PDF"@
        ||| n == "Python"@
        ||| n == "Rust"@
        ||| n == "RustBuildDependency"@
        ||| n == "Shell"@
        ||| n == "SQL"@
        ||| n == "Text"@
        ||| n == "Toml"@
        ||| n == "TypeScript"@
        ||| n == "XML"@
        ||| n == "Vim"@
        ||| n == "Yaml"@
        ||| n == "Zig"@
    }

    /// Parses a variant from its name; any other name is out of schema.
    pub fn from_name(name: &str) -> (r: Result<FileType, OpError>)
        ensures
            r is Ok <==> FileType::is_variant_name(name@),
            r matches Ok(v) ==> v.spec_variant_name() == name@,
            r matches Err(e) ==> e == OpError::InvalidParameter,
    {
        if str_eq(name, "C") {
            Ok(FileType::C)
        } else if str_eq(name, "CPP") {
            Ok(FileType::CPP)
        } else if str_eq(name, "Config") {
            Ok(FileType::Config)
        } else if str_eq(name, "CSharp") {
            Ok(FileType::CSharp)
        } else if str_eq(name, "Go") {
            Ok(FileType::Go)
        } else if str_eq(name, "Java") {
            Ok(FileType::Java)
        } else if str_eq(name, "JavaScript") {
            Ok(FileType::JavaScript)
        } else if str_eq(name, "Json") {
            Ok(FileType::Json)
        } else if str_eq(name, "JsonLines") {
            Ok(FileType::JsonLines)
        } else if str_eq(name, "Jupyter") {
            Ok(FileType::Jupyter)
        } else if str_eq(name, "License") {
            Ok(FileType::License)
        } else if str_eq(name, "Log") {
            Ok(FileType::Log)
        } else if str_eq(name, "Lua") {
            Ok(FileType::Lua)
        } else if str_eq(name, "Markdown") {
            Ok(FileType::Markdown)
        } else if str_eq(name, "OCaml") {
            Ok(FileType::OCaml)
        } else if str_eq(name, "Org") {
            Ok(FileType::Org)
        } else if str_eq(name, "PDF") {
            Ok(FileType::PDF)
        } else if str_eq(name, "Python") {
            Ok(FileType::Python)
        } else if str_eq(name, "Rust") {
            Ok(FileType::Rust)
        } else if str_eq(name, "RustBuildDependency") {
            Ok(FileType::RustBuildDependency)
        } else if str_eq(name, "Shell") {
            Ok(FileType::Shell)
        } else if str_eq(name, "SQL") {
            Ok(FileType::SQL)
        } else if str_eq(name, "Text") {
            Ok(FileType::Text)
        } else if str_eq(name, "Toml") {
            Ok(FileType::Toml)
        } else if str_eq(name, "TypeScript") {
            Ok(FileType::TypeScript)
        } else if str_eq(name, "XML") {
            Ok(FileType::XML)
        } else if str_eq(name, "Vim") {
            Ok(FileType::Vim)
        } else if str_eq(name, "Yaml") {
            Ok(FileType::Yaml)
        } else if str_eq(name, "Zig") {
            Ok(FileType::Zig)
        } else {
            Err(OpError::InvalidParameter)
        }
    }
}


impl SortBy {
    /// The name of this variant, as the selection layer writes it.
    pub open spec fn spec_variant_name(self) -> Seq<char> {
        match self {
            SortBy::Unsorted => "Unsorted"@,
            SortBy::Path => "Path"@,
            SortBy::Modified => "Modified"@,
            SortBy::Accessed => "Accessed"@,
            SortBy::Created => "Created"@,
        }
    }

    /// Whether a name denotes a variant.
    pub open spec fn is_variant_name(n: Seq<char>) -> bool {
        ||| n == "Unsorted"@
        ||| n == "Path"@
        ||| n == "Modified"@
        ||| n == "Accessed"@
        ||| n == "Created"@
    }

    /// Parses a variant from its name; any other name is out of schema.
    pub fn from_name(name: &str) -> (r: Result<SortBy, OpError>)
        ensures
            r is Ok <==> SortBy::is_variant_name(name@),
            r matches Ok(v) ==> v.spec_variant_name() == name@,
            r matches Err(e) ==> e == OpError::InvalidParameter,
    {
        if str_eq(name, "Unsorted") {
            Ok(SortBy::Unsorted)
        } else if str_eq(name, "Path") {
            Ok(SortBy::Path)
        } else if str_eq(name, "Modified") {
            Ok(SortBy::Modified)
        } else if str_eq(name, "Accessed") {
            Ok(SortBy::Accessed)
        } else if str_eq(name, "Created") {
            Ok(SortBy::Created)
        } else {
            Err(OpError::InvalidParameter)
        }
    }
}


impl SortOrdering {
    /// The name of this variant, as the selection layer writes it.
    pub open spec fn spec_variant_name(self) -> Seq<char> {
        match self {
            SortOrdering::Ascending => "Ascending"@,
            SortOrdering::Descending => "Descending"@,
        }
    }

    /// Whether a name denotes a variant.
    pub open spec fn is_variant_name(n: Seq<char>) -> bool {
        ||| n == "Ascending"@
        ||| n == "Descending"@
    }

    /// Parses a variant from its name; any other name is out of schema.
    pub fn from_name(name: &str) -> (r: Result<SortOrdering, OpError>)
        ensures
            r is Ok <==> SortOrdering::is_variant_name(name@),
            r matches Ok(v) ==> v.spec_variant_name() == name@,
            r matches Err(e) ==> e == OpError::InvalidParameter,
    {
        if str_eq(name, "Ascending") {
            Ok(SortOrdering::Ascending)
        } else if str_eq(name, "Descending") {
            Ok(SortOrdering::Descending)
        } else {
            Err(OpError::InvalidParameter)
        }
    }
}


impl Enabled {
    /// The name of this variant, as the selection layer writes it.
    pub open spec fn spec_variant_name(self) -> Seq<char> {
        match self {
            Enabled::Yes => "Yes"@,
            Enabled::No => "No"@,
        }
    }

    /// Whether a name denotes a variant.
    pub open spec fn is_variant_name(n: Seq<char>) -> bool {
        ||| n == "Yes"@
        ||| n == "No"@
    }

    /// Parses a variant from its name; any other name is out of schema.
    pub fn from_name(name: &str) -> (r: Result<Enabled, OpError>)
        ensures
            r is Ok <==> Enabled::is_variant_name(name@),
            r matches Ok(v) ==> v.spec_variant_name() == name@,
            r matches Err(e) ==> e == OpError::InvalidParameter,
    {
        if str_eq(name, "Yes") {
            Ok(Enabled::Yes)
        } else if str_eq(name, "No") {
            Ok(Enabled::No)
        } else {
            Err(OpError::InvalidParameter)
        }
    }
}


impl CaseSensitivity {
    /// The name of this variant, as the selection layer writes it.
    pub open spec fn spec_variant_name(self) -> Seq<char> {
        match self {
            CaseSensitivity::IgnoreCase => "IgnoreCase"@,
            CaseSensitivity::CaseSensitive => "CaseSensitive"@,
            CaseSensitivity::SmartCase => "SmartCase"@,
        }
    }

    /// Whether a name denotes a variant.
    pub open spec fn is_variant_name(n: Seq<char>) -> bool {
        ||| n == "IgnoreCase"@
        ||| n == "CaseSensitive"@
        ||| n == "SmartCase"@
    }

    /// Parses a variant from its name; any other name is out of schema.
    pub fn from_name(name: &str) -> (r: Result<CaseSensitivity, OpError>)
        ensures
            r is Ok <==> CaseSensitivity::is_variant_name(name@),
            r matches Ok(v) ==> v.spec_variant_name() == name@,
            r matches Err(e) ==> e == OpError::InvalidParameter,
    {
        if str_eq(name, "IgnoreCase") {
            Ok(CaseSensitivity::IgnoreCase)
        } else if str_eq(name, "CaseSensitive") {
            Ok(CaseSensitivity::CaseSensitive)
        } else if str_eq(name, "SmartCase") {
            Ok(CaseSensitivity::SmartCase)
        } else {
            Err(OpError::InvalidParameter)
        }
    }
}


impl Restriction {
    /// The name of this variant, as the selection layer writes it.
    pub open spec fn spec_variant_name(self) -> Seq<char> {
        match self {
            Restriction::Default => "Default"@,
            Restriction::IncludeIgnored => "IncludeIgnored"@,
            Restriction::IncludeIgnoredHidden => "IncludeIgnoredHidden"@,
            Restriction::IncludeIgnoredHiddenBinary => "IncludeIgnoredHiddenBinary"@,
        }
    }

    /// Whether a name denotes a variant.
    pub open spec fn is_variant_name(n: Seq<char>) -> bool {
        ||| n == "Default"@
        ||| n == "IncludeIgnored"@
        ||| n == "IncludeIgnoredHidden"@
        ||| n == "IncludeIgnoredHiddenBinary"@
    }

    /// Parses a variant from its name; any other name is out of schema.
    pub fn from_name(name: &str) -> (r: Result<Restriction, OpError>)
        ensures
            r is Ok <==> Restriction::is_variant_name(name@),
            r matches Ok(v) ==> v.spec_variant_name() == name@,
            r matches Err(e) ==> e == OpError::InvalidParameter,
    {
        if str_eq(name, "Default") {
            Ok(Restriction::Default)
        } else if str_eq(name, "IncludeIgnored") {
            Ok(Restriction::IncludeIgnored)
        } else if str_eq(name, "IncludeIgnoredHidden") {
            Ok(Restriction::IncludeIgnoredHidden)
        } else if str_eq(name, "IncludeIgnoredHiddenBinary") {
            Ok(Restriction::IncludeIgnoredHiddenBinary)
        } else {
            Err(OpError::InvalidParameter)
        }
    }
}


impl FileDisplayMode {
    /// The name of this variant, as the selection layer writes it.
    pub open spec fn spec_variant_name(self) -> Seq<char> {
        match self {
            FileDisplayMode::FilesIncluded => "FilesIncluded"@,
            FileDisplayMode::FilesWithMatch => "FilesWithMatch"@,
            FileDisplayMode::FilesWithoutMatch => "FilesWithoutMatch"@,
        }
    }

    /// Whether a name denotes a variant.
    pub open spec fn is_variant_name(n: Seq<char>) -> bool {
        ||| n == "FilesIncluded"@
        ||| n == "FilesWithMatch"@
        ||| n == "FilesWithoutMatch"@
    }

    /// Parses a variant from its name; any other name is out of schema.
    pub fn from_name(name: &str) -> (r: Result<FileDisplayMode, OpError>)
        ensures
            r is Ok <==> FileDisplayMode::is_variant_name(name@),
            r matches Ok(v) ==> v.spec_variant_name() == name@,
            r matches Err(e) ==> e == OpError::InvalidParameter,
    {
        if str_eq(name, "FilesIncluded") {
            Ok(FileDisplayMode::FilesIncluded)
        } else if str_eq(name, "FilesWithMatch") {
            Ok(FileDisplayMode::FilesWithMatch)
        } else if str_eq(name, "FilesWithoutMatch") {
            Ok(FileDisplayMode::FilesWithoutMatch)
        } else {
            Err(OpError::InvalidParameter)
        }
    }
}

} // verus!
