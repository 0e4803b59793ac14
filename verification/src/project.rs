//! The project-tree node model: one entry (file or folder) of a desktop
//! editor's project sidebar.
//!
//! A node is built once from a canonical filesystem path, remembers its
//! display name (the final path component, which must be valid text), and
//! knows how sibling entries are ordered for display: folders strictly before
//! files, entries of one kind by their names under an injected collator.
//! Resolving a raw path to its canonical form is the caller's concern; the
//! node model itself performs no I/O.

use vstd::prelude::*;
use vstd::utf8::{valid_utf8, decode_utf8};
use core::cmp::Ordering;
use crate::collate::Collator;

verus! {

/// The final component of a path given as raw bytes: the suffix that follows
/// the last `/`, empty when the path is empty or ends in `/` (a canonical
/// path ends in `/` only when it is the filesystem root).
pub open spec fn file_name_of(path: Seq<u8>) -> Seq<u8>
    decreases path.len(),
{
    if path.len() == 0 {
        Seq::empty()
    } else if path.last() == 47u8 {
        Seq::empty()
    } else {
        file_name_of(path.drop_last()).push(path.last())
    }
}

/// Why a node could not be built from a canonical path.
#[derive(Clone, Copy, Debug, PartialEq, Eq)]
pub enum NodeError {
    /// The path has no final component (it designates a filesystem root).
    NoFileName,
    /// The final component cannot be decoded as UTF-8 text.
    InvalidUtf8,
}

impl NodeError {
    /// A short description of the error.
    pub fn message(&self) -> (r: &'static str)
        ensures
            self is NoFileName ==> r@ == "path has no file name"@,
            self is InvalidUtf8 ==> r@ == "path is not valid UTF-8"@,
    {
        match self {
            NodeError::NoFileName => "path has no file name",
            NodeError::InvalidUtf8 => "path is not valid UTF-8",
        }
    }
}

/// A symbolic icon request: the identifier of a themed indicator icon, and
/// the pixel size at which it should be resolved. Turning the identifier
/// into a renderable icon is the icon-theme resolver's concern, outside this
/// model.
#[derive(Clone, Copy, Debug, PartialEq, Eq)]
pub struct IconId {
    pub name: &'static str,
    pub size: u16,
}

/// Relies on `String::from_utf8`: returns the decoded text exactly when the
/// bytes are valid UTF-8, and rejects the bytes otherwise.
#[verifier::external_body]
fn string_from_utf8(bytes: Vec<u8>) -> (r: Option<String>)
    ensures
        (r is Some) <==> valid_utf8(bytes@),
        r matches Some(s) ==> s@ == decode_utf8(bytes@),
{
    String::from_utf8(bytes).ok()
}

/// One entry of the project tree.
#[derive(Clone, Debug, PartialEq, Eq)]
pub enum ProjectNode {
    /// A directory entry. `open` tracks the expanded/collapsed display state;
    /// `root` marks a tree's top-level entry (stored for forward
    /// compatibility, not yet read for icon selection).
    Folder { name: String, path: Vec<u8>, open: bool, root: bool },
    /// A non-directory entry.
    File { name: String, path: Vec<u8> },
}

impl ProjectNode {
    /// The display name of the entry.
    pub open spec fn spec_name(&self) -> Seq<char> {
        match self {
            ProjectNode::Folder { name, .. } => name@,
            ProjectNode::File { name, .. } => name@,
        }
    }

    /// The canonical path of the entry, as raw bytes.
    pub open spec fn spec_path(&self) -> Seq<u8> {
        match self {
            ProjectNode::Folder { path, .. } => path@,
            ProjectNode::File { path, .. } => path@,
        }
    }

    /// Whether a folder entry is shown expanded.
    pub open spec fn spec_open(&self) -> bool
        recommends
            self is Folder,
    {
        self->Folder_open
    }

    /// Builds the node for a canonical path. The caller resolves the raw
    /// path to its canonical absolute form and queries whether it designates
    /// a directory; this constructor extracts the display name (the final
    /// path component, which must decode as UTF-8 text) and selects the
    /// variant. A fresh folder is collapsed and not a tree root.
    pub fn new(path: Vec<u8>, is_dir: bool) -> (r: Result<ProjectNode, NodeError>)
        ensures
            match r {
                Ok(node) => {
                    &&& file_name_of(path@).len() > 0
                    &&& valid_utf8(file_name_of(path@))
                    &&& node.spec_path() == path@
                    &&& node.spec_name() == decode_utf8(file_name_of(path@))
                    &&& (is_dir <==> node is Folder)
                    &&& (node is Folder ==> !node->Folder_open && !node->Folder_root)
                },
                Err(e) => match e {
                    NodeError::NoFileName => file_name_of(path@).len() == 0,
                    NodeError::InvalidUtf8 => file_name_of(path@).len() > 0 && !valid_utf8(
                        file_name_of(path@),
                    ),
                },
            },
    {
        let len = path.len();
        let mut start: usize = 0;
        let mut j: usize = 0;
        proof {
            assert(file_name_of(path@.take(0)) =~= path@.subrange(0, 0));
        }
        while j < len
            invariant
                start <= j <= len,
                len == path@.len(),
                file_name_of(path@.take(j as int)) == path@.subrange(start as int, j as int),
            decreases len - j,
        {
            let c: u8 = path[j];
            proof {
                let pj: int = j as int;
                assert(path@.take(pj + 1).last() == path@[pj]);
                if c == 47u8 {
                    assert(file_name_of(path@.take(pj + 1)) =~= path@.subrange(pj + 1, pj + 1));
                } else {
                    assert(path@.take(pj + 1).drop_last() =~= path@.take(pj));
                    assert(path@.subrange(start as int, pj).push(path@[pj]) =~= path@.subrange(
                        start as int,
                        pj + 1,
                    ));
                    assert(file_name_of(path@.take(pj + 1)) =~= path@.subrange(
                        start as int,
                        pj + 1,
                    ));
                }
            }
            if c == 47u8 {
                start = j + 1;
            }
            j = j + 1;
        }
        proof {
            assert(path@.take(len as int) =~= path@);
        }
        let mut name_bytes: Vec<u8> = Vec::new();
        let mut k: usize = start;
        while k < len
            invariant
                start <= k <= len,
                len == path@.len(),
                name_bytes@ == path@.subrange(start as int, k as int),
            decreases len - k,
        {
            let b: u8 = path[k];
            name_bytes.push(b);
            proof {
                assert(path@.subrange(start as int, k as int).push(path@[k as int])
                    =~= path@.subrange(start as int, k as int + 1));
            }
            k = k + 1;
        }
        if name_bytes.len() == 0 {
            return Err(NodeError::NoFileName);
        }
        match string_from_utf8(name_bytes) {
            None => Err(NodeError::InvalidUtf8),
            Some(name) => if is_dir {
                Ok(ProjectNode::Folder { name, path, open: false, root: false })
            } else {
                Ok(ProjectNode::File { name, path })
            },
        }
    }

    /// The display name of the entry, for either variant.
    pub fn name(&self) -> (r: &str)
        ensures
            r@ == self.spec_name(),
    {
        match self {
            ProjectNode::Folder { name, .. } => name.as_str(),
            ProjectNode::File { name, .. } => name.as_str(),
        }
    }

    /// The icon to show beside the entry, as a symbolic request at the given
    /// pixel size: the collapsed indicator for a closed folder, the expanded
    /// indicator for an open one. A file gets no icon here; its icon is
    /// chosen by other means (for instance by extension), outside this model.
    pub fn icon(&self, size: u16) -> (r: Option<IconId>)
        ensures
            self matches ProjectNode::Folder { open, .. } ==> (r matches Some(ic) && ic.size
                == size && ic.name@ == (if *open {
                "go-down-symbolic"@
            } else {
                "go-next-symbolic"@
            })),
            self is File ==> r is None,
    {
        match self {
            ProjectNode::Folder { open, .. } => Some(
                if *open {
                    IconId { name: "go-down-symbolic", size }
                } else {
                    IconId { name: "go-next-symbolic", size }
                },
            ),
            ProjectNode::File { .. } => None,
        }
    }

    /// The display order of two sibling entries under a collator: folders
    /// strictly before files, regardless of names; entries of one kind by
    /// the collator's verdict on their display names.
    pub open spec fn spec_order<C: Collator>(&self, other: &ProjectNode, collator: &C) -> Ordering {
        if self is Folder && other is File {
            Ordering::Less
        } else if self is File && other is Folder {
            Ordering::Greater
        } else {
            collator.spec_compare(self.spec_name(), other.spec_name())
        }
    }

    /// Compares two sibling entries for display, under the given collator.
    pub fn compare<C: Collator>(&self, other: &ProjectNode, collator: &C) -> (r: Ordering)
        ensures
            r == self.spec_order(other, collator),
    {
        match self {
            ProjectNode::Folder { .. } => {
                if let ProjectNode::File { .. } = other {
                    return Ordering::Less;
                }
            },
            ProjectNode::File { .. } => {
                if let ProjectNode::Folder { .. } = other {
                    return Ordering::Greater;
                }
            },
        }
        collator.compare(self.name(), other.name())
    }
}

/// Folders sort strictly before files, whatever their names.
pub proof fn lemma_folders_before_files<C: Collator>(
    a: &ProjectNode,
    b: &ProjectNode,
    collator: &C,
)
    requires
        a is Folder,
        b is File,
    ensures
        a.spec_order(b, collator) == Ordering::Less,
        b.spec_order(a, collator) == Ordering::Greater,
{
}

/// Between entries of one kind, the order is exactly the collator's verdict
/// on the display names.
pub proof fn lemma_same_kind_by_name<C: Collator>(a: &ProjectNode, b: &ProjectNode, collator: &C)
    requires
        a is Folder <==> b is Folder,
    ensures
        a.spec_order(b, collator) == collator.spec_compare(a.spec_name(), b.spec_name()),
{
}

/// The order is consistent: swapping the two entries flips the verdict, and
/// no two entries compare as both less and greater.
pub proof fn lemma_order_antisymmetric<C: Collator>(a: &ProjectNode, b: &ProjectNode, collator: &C)
    ensures
        (a.spec_order(b, collator) == Ordering::Less) <==> (b.spec_order(a, collator)
            == Ordering::Greater),
        (a.spec_order(b, collator) == Ordering::Equal) <==> (b.spec_order(a, collator)
            == Ordering::Equal),
{
    collator.antisymmetry(a.spec_name(), b.spec_name());
}

/// The strict order is transitive.
pub proof fn lemma_order_transitive<C: Collator>(
    a: &ProjectNode,
    b: &ProjectNode,
    c: &ProjectNode,
    collator: &C,
)
    requires
        a.spec_order(b, collator) == Ordering::Less,
        b.spec_order(c, collator) == Ordering::Less,
    ensures
        a.spec_order(c, collator) == Ordering::Less,
{
    if !(a is Folder && c is File) {
        collator.transitivity(a.spec_name(), b.spec_name(), c.spec_name());
    }
}

/// Entries of one kind whose display names are equal are order-equivalent,
/// whatever their underlying paths.
pub proof fn lemma_equal_names_equal<C: Collator>(a: &ProjectNode, b: &ProjectNode, collator: &C)
    requires
        a is Folder <==> b is Folder,
        a.spec_name() == b.spec_name(),
    ensures
        a.spec_order(b, collator) == Ordering::Equal,
{
    collator.reflexivity(a.spec_name());
}

} // verus!
