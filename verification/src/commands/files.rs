//! The file browser: what of a directory is shown, and in which order, and
//! what of a file.

use vstd::prelude::*;
use vstd::string::*;
use crate::models::file::{DirEntry, DirEntryView, FileContent, FileContentView, FileType};
use crate::ordering::{
    in_order, is_ordered, is_total_preorder, lemma_bytes_le_total, lemma_bytes_le_transitive,
    lemma_in_order_sorts, lemma_inserted, text_at_most, text_le,
};
use crate::text::{decimal, decimal_string, lowercase, same_text, to_lowercase};
use vstd::utf8::encode_utf8;

verus! {

/// One entry of a directory as the host read it: its name and path, whether it
/// is a directory, its length in bytes, and the extension of its name (empty
/// where it has none).
#[derive(Debug)]
pub struct RawEntry {
    pub name: String,
    pub path: String,
    pub is_dir: bool,
    pub len: u64,
    pub extension: String,
}

/// The mathematical value of a [`RawEntry`].
pub struct RawEntryView {
    pub name: Seq<char>,
    pub path: Seq<char>,
    pub is_dir: bool,
    pub len: u64,
    pub extension: Seq<char>,
}

impl View for RawEntry {
    type V = RawEntryView;

    open spec fn view(&self) -> RawEntryView {
        RawEntryView {
            name: self.name@,
            path: self.path@,
            is_dir: self.is_dir,
            len: self.len,
            extension: self.extension@,
        }
    }
}

/// The raw entries of a list, each by its value.
pub open spec fn raw_views(list: Seq<RawEntry>) -> Seq<RawEntryView> {
    list.map_values(|e: RawEntry| e@)
}

/// The entries of a list, each by its value.
pub open spec fn entry_views(list: Seq<DirEntry>) -> Seq<DirEntryView> {
    list.map_values(|e: DirEntry| e@)
}

/// Whether an entry of this name is left out: names that start with a dot, and
/// the directories of build tools.
pub open spec fn is_hidden(name: Seq<char>) -> bool {
    ||| name.len() > 0 && name[0] == '.'
    ||| name == "node_modules"@
    ||| name == "target"@
    ||| name == "__pycache__"@
}

/// An entry as it is shown: a directory has no size and no kind, a file has
/// the kind that its extension tells.
pub open spec fn shown(raw: RawEntryView) -> DirEntryView {
    DirEntryView {
        name: raw.name,
        path: raw.path,
        is_dir: raw.is_dir,
        size: if raw.is_dir {
            0
        } else {
            raw.len
        },
        file_type: if raw.is_dir {
            FileType::Unknown
        } else {
            FileType::of_lowercase(lowercase(raw.extension))
        },
    }
}

/// The entries that are shown, in the order in which they were read.
pub open spec fn visible(raws: Seq<RawEntryView>) -> Seq<DirEntryView> {
    raws.filter(|r: RawEntryView| !is_hidden(r.name)).map_values(|r: RawEntryView| shown(r))
}

/// Whether `a` is shown before `b`, or may stand on either side of it:
/// directories come before files, and within each the names decide, compared
/// in lower case.
pub open spec fn entry_le(a: DirEntryView, b: DirEntryView) -> bool {
    if a.is_dir != b.is_dir {
        a.is_dir
    } else {
        text_le(lowercase(a.name), lowercase(b.name))
    }
}

/// The order in which entries are shown.
pub open spec fn entry_order() -> spec_fn(DirEntryView, DirEntryView) -> bool {
    |a: DirEntryView, b: DirEntryView| entry_le(a, b)
}

/// The order in which entries are shown compares any two entries, and carries
/// over from one entry to a third by way of a second.
pub proof fn lemma_entry_order_is_total()
    ensures
        is_total_preorder(entry_order()),
{
    let le = entry_order();
    assert forall|a: DirEntryView, b: DirEntryView| #[trigger] le(a, b) || le(b, a) by {
        lemma_bytes_le_total(encode_utf8(lowercase(a.name)), encode_utf8(lowercase(b.name)));
    }
    assert forall|a: DirEntryView, b: DirEntryView, c: DirEntryView| #[trigger]
        le(a, b) && #[trigger] le(b, c) implies le(a, c) by {
        if a.is_dir == b.is_dir && b.is_dir == c.is_dir {
            lemma_bytes_le_transitive(
                encode_utf8(lowercase(a.name)),
                encode_utf8(lowercase(b.name)),
                encode_utf8(lowercase(c.name)),
            );
        }
    }
}

/// What is shown of a directory holds each visible entry once, directories
/// first and each group by name.
pub proof fn lemma_listing_is_ordered(raws: Seq<RawEntryView>)
    ensures
        is_ordered(in_order(visible(raws), entry_order()), entry_order()),
        in_order(visible(raws), entry_order()).to_multiset() == visible(raws).to_multiset(),
{
    lemma_entry_order_is_total();
    lemma_in_order_sorts(visible(raws), entry_order());
}

fn hidden(name: &str) -> (skip: bool)
    ensures
        skip == is_hidden(name@),
{
    (name.unicode_len() > 0 && name.get_char(0) == '.') || same_text(name, "node_modules")
        || same_text(name, "target") || same_text(name, "__pycache__")
}

fn show(raw: &RawEntry) -> (entry: DirEntry)
    ensures
        entry@ == shown(raw@),
{
    DirEntry {
        name: raw.name.clone(),
        path: raw.path.clone(),
        is_dir: raw.is_dir,
        size: if raw.is_dir {
            0
        } else {
            raw.len
        },
        file_type: if raw.is_dir {
            FileType::Unknown
        } else {
            FileType::from_extension(raw.extension.as_str())
        },
    }
}

fn at_most(a_is_dir: bool, a_key: &str, b_is_dir: bool, b_key: &str) -> (le: bool)
    ensures
        le == if a_is_dir != b_is_dir {
            a_is_dir
        } else {
            text_le(a_key@, b_key@)
        },
{
    if a_is_dir != b_is_dir {
        a_is_dir
    } else {
        text_at_most(a_key, b_key)
    }
}

/// Puts the entries into the order in which they are shown.
pub fn sort_entries(entries: &Vec<DirEntry>) -> (sorted: Vec<DirEntry>)
    ensures
        entry_views(sorted@) == in_order(entry_views(entries@), entry_order()),
{
    let ghost all = entry_views(entries@);
    let mut sorted: Vec<DirEntry> = Vec::new();
    let mut keys: Vec<String> = Vec::new();
    let mut i: usize = 0;
    assert(entry_views(sorted@) =~= in_order(all.take(0), entry_order()));
    while i < entries.len()
        invariant
            i <= entries.len(),
            all == entry_views(entries@),
            keys@.len() == sorted@.len(),
            forall|j: int| 0 <= j < keys@.len() ==> keys@[j]@ == lowercase(sorted@[j].name@),
            entry_views(sorted@) == in_order(all.take(i as int), entry_order()),
        decreases entries.len() - i,
    {
        let entry = entries[i].clone();
        let key = to_lowercase(entry.name.as_str());
        let ghost before = entry_views(sorted@);
        let mut place: usize = sorted.len();
        while place > 0 && !at_most(
            sorted[place - 1].is_dir,
            keys[place - 1].as_str(),
            entry.is_dir,
            key.as_str(),
        )
            invariant
                place <= sorted@.len(),
                keys@.len() == sorted@.len(),
                before == entry_views(sorted@),
                key@ == lowercase(entry.name@),
                forall|j: int| 0 <= j < keys@.len() ==> keys@[j]@ == lowercase(sorted@[j].name@),
                forall|j: int| place <= j < before.len() ==> !entry_le(before[j], entry@),
            decreases place,
        {
            place -= 1;
        }
        proof {
            lemma_inserted(before, entry@, entry_order(), place as int);
            assert(all.take(i + 1).drop_last() =~= all.take(i as int));
        }
        sorted.insert(place, entry);
        keys.insert(place, key);
        assert(entry_views(sorted@) =~= before.insert(place as int, all[i as int]));
        i += 1;
    }
    assert(all.take(i as int) =~= all);
    sorted
}

/// What is shown of a directory: its entries but the hidden ones, directories
/// first, each group by name without regard to case.
pub fn list_directory(raws: &Vec<RawEntry>) -> (entries: Vec<DirEntry>)
    ensures
        entry_views(entries@) == in_order(visible(raw_views(raws@)), entry_order()),
{
    let ghost all = raw_views(raws@);
    let ghost wanted = |r: RawEntryView| !is_hidden(r.name);
    let mut kept: Vec<DirEntry> = Vec::new();
    let mut i: usize = 0;
    proof {
        reveal(Seq::filter);
        assert(entry_views(kept@) =~= visible(all.take(0)));
    }
    while i < raws.len()
        invariant
            i <= raws.len(),
            all == raw_views(raws@),
            wanted == |r: RawEntryView| !is_hidden(r.name),
            entry_views(kept@) == visible(all.take(i as int)),
        decreases raws.len() - i,
    {
        proof {
            all.take(i as int).lemma_filter_push(all[i as int], wanted);
            assert(all.take(i + 1) =~= all.take(i as int).push(all[i as int]));
        }
        if !hidden(raws[i].name.as_str()) {
            let ghost before = entry_views(kept@);
            kept.push(show(&raws[i]));
            assert(entry_views(kept@) =~= before.push(shown(all[i as int])));
            assert(visible(all.take(i + 1)) =~= before.push(shown(all[i as int])));
        } else {
            assert(visible(all.take(i + 1)) =~= visible(all.take(i as int)));
        }
        i += 1;
    }
    assert(all.take(i as int) =~= all);
    sort_entries(&kept)
}

/// The largest size, in bytes, of a file whose content is shown.
pub const PREVIEW_LIMIT: u64 = 1_048_576;

/// How much of a file is shown.
#[derive(Clone, Copy, Debug, PartialEq, Eq, Structural)]
pub enum Preview {
    /// Nothing: the file holds no text.
    Nothing,
    /// A note that the file is too large.
    TooLarge,
    /// The content of the file.
    Whole,
}

/// How much is shown of a file of this kind and size.
pub open spec fn preview_of(kind: FileType, size: u64) -> Preview {
    if kind == FileType::Binary || kind == FileType::Image {
        Preview::Nothing
    } else if size > PREVIEW_LIMIT {
        Preview::TooLarge
    } else {
        Preview::Whole
    }
}

/// Says how much is shown of the file whose name has the extension `extension`
/// and which is `size` bytes long: only where the answer is `Whole` the file
/// has to be read.
pub fn plan_preview(extension: &str, size: u64) -> (plan: Preview)
    ensures
        plan == preview_of(FileType::of_lowercase(lowercase(extension@)), size),
{
    let kind = FileType::from_extension(extension);
    if kind == FileType::Binary || kind == FileType::Image {
        Preview::Nothing
    } else if size > PREVIEW_LIMIT {
        Preview::TooLarge
    } else {
        Preview::Whole
    }
}

/// The note that stands for the content of a file that is too large.
pub open spec fn too_large_note(size: u64) -> Seq<char> {
    "File too large to preview ("@ + decimal(size as nat, 0) + " bytes)"@
}

/// What is shown of a file: its kind and size, and its content as far as it is shown.
pub open spec fn file_shown(
    path: Seq<char>,
    extension: Seq<char>,
    size: u64,
    text: Seq<char>,
) -> FileContentView {
    let kind = FileType::of_lowercase(lowercase(extension));
    FileContentView {
        path,
        content: match preview_of(kind, size) {
            Preview::Nothing => Seq::empty(),
            Preview::TooLarge => too_large_note(size),
            Preview::Whole => text,
        },
        file_type: kind,
        size,
    }
}

/// What is shown of the file at `file_path`, whose name has the extension
/// `extension`, which is `size` bytes long and holds `text`. The text counts
/// only where the whole file is shown.
pub fn read_file(file_path: String, extension: &str, size: u64, text: String) -> (content:
    FileContent)
    ensures
        content@ == file_shown(file_path@, extension@, size, text@),
{
    let kind = FileType::from_extension(extension);
    let content = if kind == FileType::Binary || kind == FileType::Image {
        String::new()
    } else if size > PREVIEW_LIMIT {
        String::from_str("File too large to preview (").concat(
            decimal_string(size, 0).as_str(),
        ).concat(" bytes)")
    } else {
        text
    };
    FileContent { path: file_path, content, file_type: kind, size }
}

} // verus!
