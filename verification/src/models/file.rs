//! Files and directories of a worktree, as the file browser shows them.

use vstd::prelude::*;
use vstd::string::*;
use crate::text::{is_one_of, lowercase, to_lowercase, views_of};

verus! {

/// The kind of a file, told by the extension of its name.
#[derive(Clone, Copy, Debug, PartialEq, Eq, Structural)]
pub enum FileType {
    Code,
    Markdown,
    Image,
    Json,
    Config,
    Binary,
    Unknown,
}

/// One entry of a directory.
#[derive(Debug)]
pub struct DirEntry {
    pub name: String,
    pub path: String,
    pub is_dir: bool,
    pub size: u64,
    pub file_type: FileType,
}

/// The mathematical value of a [`DirEntry`].
pub struct DirEntryView {
    pub name: Seq<char>,
    pub path: Seq<char>,
    pub is_dir: bool,
    pub size: u64,
    pub file_type: FileType,
}

impl View for DirEntry {
    type V = DirEntryView;

    open spec fn view(&self) -> DirEntryView {
        DirEntryView {
            name: self.name@,
            path: self.path@,
            is_dir: self.is_dir,
            size: self.size,
            file_type: self.file_type,
        }
    }
}

impl Clone for DirEntry {
    fn clone(&self) -> (res: Self)
        ensures
            res@ == self@,
    {
        DirEntry {
            name: self.name.clone(),
            path: self.path.clone(),
            is_dir: self.is_dir,
            size: self.size,
            file_type: self.file_type,
        }
    }
}

/// A file with what is shown of its content.
#[derive(Debug)]
pub struct FileContent {
    pub path: String,
    pub content: String,
    pub file_type: FileType,
    pub size: u64,
}

/// The mathematical value of a [`FileContent`].
pub struct FileContentView {
    pub path: Seq<char>,
    pub content: Seq<char>,
    pub file_type: FileType,
    pub size: u64,
}

impl View for FileContent {
    type V = FileContentView;

    open spec fn view(&self) -> FileContentView {
        FileContentView {
            path: self.path@,
            content: self.content@,
            file_type: self.file_type,
            size: self.size,
        }
    }
}

impl Clone for FileContent {
    fn clone(&self) -> (res: Self)
        ensures
            res@ == self@,
    {
        FileContent {
            path: self.path.clone(),
            content: self.content.clone(),
            file_type: self.file_type,
            size: self.size,
        }
    }
}

/// The extensions of source code.
pub open spec fn code_extensions() -> Seq<Seq<char>> {
    seq![
        "rs"@, "ts"@, "tsx"@, "js"@, "jsx"@, "py"@, "go"@, "java"@, "c"@, "cpp"@, "h"@, "cs"@,
        "rb"@, "php"@, "swift"@, "kt"@, "scala"@, "html"@, "css"@, "scss"@, "less"@, "vue"@,
        "svelte"@, "sh"@, "bash"@, "zsh"@, "fish"@, "ps1"@, "bat"@, "sql"@, "graphql"@,
        "proto"@, "lua"@, "r"@, "dart"@, "zig"@, "nim"@, "ex"@, "exs"@, "erl"@, "hs"@, "ml"@,
        "clj"@, "lisp"@, "el"@,
    ]
}

fn code_list() -> (list: Vec<&'static str>)
    ensures
        views_of(list@) == code_extensions(),
{
    let list = vec![
        "rs", "ts", "tsx", "js", "jsx", "py", "go", "java", "c", "cpp", "h", "cs", "rb", "php",
        "swift", "kt", "scala", "html", "css", "scss", "less", "vue", "svelte", "sh", "bash",
        "zsh", "fish", "ps1", "bat", "sql", "graphql", "proto", "lua", "r", "dart", "zig",
        "nim", "ex", "exs", "erl", "hs", "ml", "clj", "lisp", "el",
    ];
    assert(views_of(list@) =~= code_extensions());
    list
}

/// The extensions of prose.
pub open spec fn markdown_extensions() -> Seq<Seq<char>> {
    seq![
        "md"@, "mdx"@, "rst"@, "txt"@, "adoc"@,
    ]
}

fn markdown_list() -> (list: Vec<&'static str>)
    ensures
        views_of(list@) == markdown_extensions(),
{
    let list = vec![
        "md", "mdx", "rst", "txt", "adoc",
    ];
    assert(views_of(list@) =~= markdown_extensions());
    list
}

/// The extensions of images.
pub open spec fn image_extensions() -> Seq<Seq<char>> {
    seq![
        "png"@, "jpg"@, "jpeg"@, "gif"@, "svg"@, "webp"@, "ico"@, "bmp"@,
    ]
}

fn image_list() -> (list: Vec<&'static str>)
    ensures
        views_of(list@) == image_extensions(),
{
    let list = vec![
        "png", "jpg", "jpeg", "gif", "svg", "webp", "ico", "bmp",
    ];
    assert(views_of(list@) =~= image_extensions());
    list
}

/// The extensions of JSON documents.
pub open spec fn json_extensions() -> Seq<Seq<char>> {
    seq![
        "json"@, "jsonc"@, "json5"@,
    ]
}

fn json_list() -> (list: Vec<&'static str>)
    ensures
        views_of(list@) == json_extensions(),
{
    let list = vec![
        "json", "jsonc", "json5",
    ];
    assert(views_of(list@) =~= json_extensions());
    list
}

/// The extensions of configuration.
pub open spec fn config_extensions() -> Seq<Seq<char>> {
    seq![
        "toml"@, "yaml"@, "yml"@, "ini"@, "cfg"@, "conf"@, "env"@, "editorconfig"@,
        "gitignore"@, "dockerignore"@, "prettierrc"@, "eslintrc"@,
    ]
}

fn config_list() -> (list: Vec<&'static str>)
    ensures
        views_of(list@) == config_extensions(),
{
    let list = vec![
        "toml", "yaml", "yml", "ini", "cfg", "conf", "env", "editorconfig", "gitignore",
        "dockerignore", "prettierrc", "eslintrc",
    ];
    assert(views_of(list@) =~= config_extensions());
    list
}

/// The extensions of what is not text.
pub open spec fn binary_extensions() -> Seq<Seq<char>> {
    seq![
        "exe"@, "dll"@, "so"@, "dylib"@, "wasm"@, "o"@, "a"@, "lib"@, "bin"@, "zip"@, "tar"@,
        "gz"@, "7z"@, "rar"@,
    ]
}

fn binary_list() -> (list: Vec<&'static str>)
    ensures
        views_of(list@) == binary_extensions(),
{
    let list = vec![
        "exe", "dll", "so", "dylib", "wasm", "o", "a", "lib", "bin", "zip", "tar", "gz", "7z",
        "rar",
    ];
    assert(views_of(list@) =~= binary_extensions());
    list
}

impl FileType {
    /// The kind of a file whose name ends in the extension `ext`, given in lower case.
    pub open spec fn of_lowercase(ext: Seq<char>) -> FileType {
        if code_extensions().contains(ext) {
            FileType::Code
        } else if markdown_extensions().contains(ext) {
            FileType::Markdown
        } else if image_extensions().contains(ext) {
            FileType::Image
        } else if json_extensions().contains(ext) {
            FileType::Json
        } else if config_extensions().contains(ext) {
            FileType::Config
        } else if binary_extensions().contains(ext) {
            FileType::Binary
        } else {
            FileType::Unknown
        }
    }

    /// The kind of a file whose name ends in the extension `ext`, which is
    /// compared as it stands: an extension in upper case is unknown.
    pub fn from_lowercase(ext: &str) -> (kind: FileType)
        ensures
            kind == FileType::of_lowercase(ext@),
    {
        if is_one_of(ext, &code_list()) {
            FileType::Code
        } else if is_one_of(ext, &markdown_list()) {
            FileType::Markdown
        } else if is_one_of(ext, &image_list()) {
            FileType::Image
        } else if is_one_of(ext, &json_list()) {
            FileType::Json
        } else if is_one_of(ext, &config_list()) {
            FileType::Config
        } else if is_one_of(ext, &binary_list()) {
            FileType::Binary
        } else {
            FileType::Unknown
        }
    }

    /// The kind of a file whose name ends in the extension `ext`, whatever the
    /// case of its letters.
    pub fn from_extension(ext: &str) -> (kind: FileType)
        ensures
            kind == FileType::of_lowercase(lowercase(ext@)),
    {
        FileType::from_lowercase(to_lowercase(ext).as_str())
    }
}

} // verus!
