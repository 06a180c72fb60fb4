//! The bundle of assets: every file under its relative path, held in memory
//! and never changed once it is built.

use vstd::prelude::*;
use vstd::hash_map::StringHashMap;
use crate::content_type::{content_type_of, get_content_type};

verus! {

/// What an [`AssetEntry`] stands for.
pub struct AssetEntryView {
    /// The relative path of the file, with `/` between its parts.
    pub path: Seq<char>,
    /// The content of the file.
    pub bytes: Seq<u8>,
}

impl AssetEntryView {
    /// The content type of the entry, which its path decides.
    pub open spec fn content_type(self) -> Seq<char> {
        content_type_of(self.path)
    }
}

/// One file of the bundle: its path, its content, and the content type that
/// its path decides.
pub struct AssetEntry {
    path: String,
    bytes: Vec<u8>,
    content_type: String,
}

impl View for AssetEntry {
    type V = AssetEntryView;

    closed spec fn view(&self) -> AssetEntryView {
        AssetEntryView { path: self.path@, bytes: self.bytes@ }
    }
}

impl AssetEntry {
    /// The stored content type is the one that the path decides.
    #[verifier::type_invariant]
    spec fn labelled_by_path(self) -> bool {
        self.content_type@ == content_type_of(self.path@)
    }

    /// An entry for the file at `path` with the content `bytes`.
    pub fn new(path: String, bytes: Vec<u8>) -> (entry: Self)
        ensures
            entry@ == (AssetEntryView { path: path@, bytes: bytes@ }),
    {
        let content_type = get_content_type(path.as_str());
        AssetEntry { path, bytes, content_type }
    }

    /// The relative path of the file.
    pub fn path(&self) -> (path: &str)
        ensures
            path@ == self@.path,
    {
        self.path.as_str()
    }

    /// The content of the file.
    pub fn bytes(&self) -> (bytes: &[u8])
        ensures
            bytes@ == self@.bytes,
    {
        self.bytes.as_slice()
    }

    /// The content type that the path of the file decides.
    pub fn content_type(&self) -> (label: &str)
        ensures
            label@ == self@.content_type(),
    {
        proof {
            use_type_invariant(self);
        }
        self.content_type.as_str()
    }
}

/// The bundle that a list of files makes: each path with its content, a later
/// file taking the place of an earlier one of the same path.
pub open spec fn bundle_of(files: Seq<(String, Vec<u8>)>) -> Map<Seq<char>, Seq<u8>>
    decreases files.len(),
{
    if files.len() == 0 {
        Map::empty()
    } else {
        bundle_of(files.drop_last()).insert(files.last().0@, files.last().1@)
    }
}

/// The bundle holds a path exactly where some file of the list has it, and
/// under that path the content of the last such file.
pub proof fn lemma_bundle_holds_last_of_each_path(files: Seq<(String, Vec<u8>)>, path: Seq<char>)
    ensures
        bundle_of(files).contains_key(path) <==> exists|i: int|
            0 <= i < files.len() && (#[trigger] files[i]).0@ == path,
        forall|i: int|
            0 <= i < files.len() && (#[trigger] files[i]).0@ == path && (forall|j: int|
                i < j < files.len() ==> (#[trigger] files[j]).0@ != path) ==> bundle_of(files)[path]
                == files[i].1@,
    decreases files.len(),
{
    if files.len() > 0 {
        let front = files.drop_last();
        lemma_bundle_holds_last_of_each_path(front, path);
        assert forall|i: int| 0 <= i < front.len() implies front[i] == files[i] by {}
    }
}

/// The whole bundle, from relative path to file. It is built once and offers
/// nothing that would change it; its view maps each path to the content of
/// its file.
pub struct AssetIndex {
    files: StringHashMap<AssetEntry>,
}

impl View for AssetIndex {
    type V = Map<Seq<char>, Seq<u8>>;

    closed spec fn view(&self) -> Map<Seq<char>, Seq<u8>> {
        contents(self.files@)
    }
}

/// The content of each file, under the key of the file.
spec fn contents(files: Map<Seq<char>, AssetEntry>) -> Map<Seq<char>, Seq<u8>> {
    Map::new(|path: Seq<char>| files.contains_key(path), |path: Seq<char>| files[path].bytes@)
}

/// Every file stands under its own path.
spec fn keyed_by_path(files: Map<Seq<char>, AssetEntry>) -> bool {
    forall|path: Seq<char>| #[trigger] files.contains_key(path) ==> files[path].path@ == path
}

impl AssetIndex {
    /// Every file stands under its own path.
    #[verifier::type_invariant]
    spec fn well_formed(self) -> bool {
        keyed_by_path(self.files@)
    }

    /// Builds the bundle from its files, each given by its relative path and
    /// its content.
    pub fn from_files(files: Vec<(String, Vec<u8>)>) -> (index: Self)
        ensures
            index@ == bundle_of(files@),
    {
        let ghost all = files@;
        let mut map: StringHashMap<AssetEntry> = StringHashMap::new();
        for file in it: files
            invariant
                it.seq() == all,
                keyed_by_path(map@),
                contents(map@) == bundle_of(all.take(it.index())),
        {
            let (path, bytes) = file;
            let key = path.clone();
            let entry = AssetEntry::new(path, bytes);
            map.insert(key, entry);
            assert(all.take(it.index() + 1).drop_last() == all.take(it.index()));
        }
        assert(all.take(all.len() as int) == all);
        AssetIndex { files: map }
    }

    /// Looks up the file at `path`. The path is taken as it is: a leading
    /// `/` is not stripped, `..` is not resolved, and case matters.
    pub fn lookup(&self, path: &str) -> (found: Option<&AssetEntry>)
        ensures
            match found {
                Some(entry) => self@.contains_key(path@) && entry@ == (AssetEntryView {
                    path: path@,
                    bytes: self@[path@],
                }),
                None => !self@.contains_key(path@),
            },
    {
        proof {
            use_type_invariant(self);
        }
        self.files.get(path)
    }
}

} // verus!
