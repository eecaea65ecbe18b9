//! File paths as their parts.
use vstd::prelude::*;
use vstd::string::*;

use crate::ordered::{rank_texts, text_below, Rank};
use crate::text::{
    ascii_lowered, chars_of, copy_texts, push_text, same, stretch, string_of, to_ascii_lower, views,
};

verus! {

/// A path: its root as it is written (empty for a relative path), and its parts
/// in order.
#[derive(Clone, Debug, PartialEq, Eq)]
pub struct FilePath {
    pub root: String,
    pub parts: Vec<String>,
}

/// What a path says.
#[verifier::ext_equal]
pub struct PathModel {
    pub root: Seq<char>,
    pub parts: Seq<Seq<char>>,
}

impl View for FilePath {
    type V = PathModel;

    open spec fn view(&self) -> PathModel {
        PathModel { root: self.root@, parts: views(self.parts@) }
    }
}

impl PathModel {
    /// The path with one more part.
    pub open spec fn join(self, part: Seq<char>) -> PathModel {
        PathModel { root: self.root, parts: self.parts.push(part) }
    }

    /// The path without its last part.
    pub open spec fn parent(self) -> Option<PathModel> {
        if self.parts.len() == 0 {
            None
        } else {
            Some(PathModel { root: self.root, parts: self.parts.drop_last() })
        }
    }

    /// The name of the file or directory: the last part, unless it only points.
    pub open spec fn file_name(self) -> Option<Seq<char>> {
        if self.parts.len() == 0 || self.parts.last() == "."@ || self.parts.last() == ".."@ {
            None
        } else {
            Some(self.parts.last())
        }
    }

    /// The path with another name; where it has no name, the path with the name
    /// behind it.
    pub open spec fn with_file_name(self, name: Seq<char>) -> PathModel {
        match self.file_name() {
            Some(_) => PathModel { root: self.root, parts: self.parts.drop_last().push(name) },
            None => self.join(name),
        }
    }

    /// The path with another extension of its name, if it has a name.
    pub open spec fn with_extension(self, extension: Seq<char>) -> PathModel {
        match self.file_name() {
            Some(name) => self.with_file_name(name_stem(name) + "."@ + extension),
            None => self,
        }
    }

    /// The part of the name behind its last dot, unless the name begins with it.
    pub open spec fn extension(self) -> Option<Seq<char>> {
        match self.file_name() {
            Some(name) => name_extension(name),
            None => None,
        }
    }
}

/// The current directory, as a path of one pointing part.
pub open spec fn here() -> PathModel {
    PathModel { root: ""@, parts: seq!["."@] }
}

/// The place of the last dot of a name.
pub open spec fn last_dot(name: Seq<char>) -> Option<int>
    decreases name.len(),
{
    if name.len() == 0 {
        None
    } else if name.last() == '.' {
        Some(name.len() - 1)
    } else {
        last_dot(name.drop_last())
    }
}

/// The part of a name behind its last dot, unless the name begins with it.
pub open spec fn name_extension(name: Seq<char>) -> Option<Seq<char>> {
    match last_dot(name) {
        Some(i) => if i == 0 {
            None
        } else {
            Some(name.skip(i + 1))
        },
        None => None,
    }
}

/// The part of a name before its last dot, unless the name begins with it.
pub open spec fn name_stem(name: Seq<char>) -> Seq<char> {
    match last_dot(name) {
        Some(i) => if i == 0 {
            name
        } else {
            name.take(i)
        },
        None => name,
    }
}

/// The part of a name before its last dot, unless the name begins with it.
pub fn stem_of_name(name: &str) -> (r: String)
    ensures
        r@ == name_stem(name@),
{
    let v = chars_of(name);
    let mut n: usize = v.len();
    assert(v@.take(n as int) =~= v@);
    while n > 0
        invariant
            n <= v@.len(),
            v@ == name@,
            last_dot(v@.take(n as int)) == last_dot(v@),
        decreases n,
    {
        assert(v@.take(n as int).drop_last() =~= v@.take(n - 1));
        assert(v@.take(n as int).last() == v@[n - 1]);
        if v[n - 1] == '.' {
            if n == 1 {
                return String::from_str(name);
            }
            let stem = stretch(&v, 0, n - 1);
            assert(stem@ =~= v@.take(n - 1));
            return string_of(&stem);
        }
        n -= 1;
    }
    String::from_str(name)
}

/// The extension of a name.
pub fn extension_of_name(name: &str) -> (r: Option<String>)
    ensures
        match r {
            Some(e) => name_extension(name@) == Some(e@),
            None => name_extension(name@) is None,
        },
{
    let v = chars_of(name);
    let mut n: usize = v.len();
    assert(v@.take(n as int) =~= v@);
    while n > 0
        invariant
            n <= v@.len(),
            v@ == name@,
            last_dot(v@.take(n as int)) == last_dot(v@),
        decreases n,
    {
        assert(v@.take(n as int).drop_last() =~= v@.take(n - 1));
        assert(v@.take(n as int).last() == v@[n - 1]);
        if v[n - 1] == '.' {
            if n == 1 {
                return None;
            }
            let rest = stretch(&v, n, v.len());
            assert(rest@ =~= v@.skip(n as int));
            return Some(string_of(&rest));
        }
        n -= 1;
    }
    None
}

impl FilePath {
    /// The current directory.
    pub fn current() -> (r: FilePath)
        ensures
            r@ == here(),
    {
        let mut parts: Vec<String> = Vec::new();
        push_text(&mut parts, ".");
        let r = FilePath { root: String::from_str(""), parts };
        assert(views(r.parts@) =~= seq!["."@]);
        r
    }

    /// A copy of the path.
    pub fn copy(&self) -> (r: FilePath)
        ensures
            r@ == self@,
    {
        FilePath { root: self.root.clone(), parts: copy_texts(&self.parts) }
    }

    /// The path with one more part.
    pub fn join(&self, part: &str) -> (r: FilePath)
        ensures
            r@ == self@.join(part@),
    {
        let mut parts = copy_texts(&self.parts);
        push_text(&mut parts, part);
        FilePath { root: self.root.clone(), parts }
    }

    /// The path without its last part.
    pub fn parent(&self) -> (r: Option<FilePath>)
        ensures
            match r {
                Some(p) => self@.parent() == Some(p@),
                None => self@.parent() is None,
            },
    {
        if self.parts.len() == 0 {
            return None;
        }
        let mut parts = copy_texts(&self.parts);
        let ghost before = parts@;
        parts.pop();
        assert(views(parts@) =~= views(before).drop_last());
        Some(FilePath { root: self.root.clone(), parts })
    }

    /// The name of the file or directory.
    pub fn file_name(&self) -> (r: Option<&str>)
        ensures
            match r {
                Some(name) => self@.file_name() == Some(name@),
                None => self@.file_name() is None,
            },
    {
        if self.parts.len() == 0 {
            return None;
        }
        let last = self.parts[self.parts.len() - 1].as_str();
        assert(self@.parts.last() == last@);
        if same(last, ".") || same(last, "..") {
            None
        } else {
            Some(last)
        }
    }

    /// The path with another name.
    pub fn with_file_name(&self, name: &str) -> (r: FilePath)
        ensures
            r@ == self@.with_file_name(name@),
    {
        match self.file_name() {
            Some(_) => {
                let mut parts = copy_texts(&self.parts);
                let ghost before = parts@;
                parts.pop();
                assert(views(parts@) =~= views(before).drop_last());
                push_text(&mut parts, name);
                FilePath { root: self.root.clone(), parts }
            },
            None => self.join(name),
        }
    }

    /// The path with another extension of its name.
    pub fn with_extension(&self, extension: &str) -> (r: FilePath)
        ensures
            r@ == self@.with_extension(extension@),
    {
        match self.file_name() {
            Some(name) => {
                let mut full = stem_of_name(name);
                full.append(".");
                full.append(extension);
                self.with_file_name(full.as_str())
            },
            None => self.copy(),
        }
    }

    /// The extension of the name.
    pub fn extension(&self) -> (r: Option<String>)
        ensures
            match r {
                Some(e) => self@.extension() == Some(e@),
                None => self@.extension() is None,
            },
    {
        match self.file_name() {
            Some(name) => extension_of_name(name),
            None => None,
        }
    }

    /// Whether two paths say the same.
    pub fn same_as(&self, other: &FilePath) -> (r: bool)
        ensures
            r == (self@ == other@),
    {
        if self.root != other.root || self.parts.len() != other.parts.len() {
            assert(self@.parts.len() == self.parts@.len());
            assert(other@.parts.len() == other.parts@.len());
            return false;
        }
        let mut i: usize = 0;
        while i < self.parts.len()
            invariant
                i <= self.parts@.len(),
                self.parts@.len() == other.parts@.len(),
                forall|j: int| 0 <= j < i ==> self@.parts[j] == #[trigger] other@.parts[j],
            decreases self.parts.len() - i,
        {
            assert(self@.parts[i as int] == self.parts@[i as int]@);
            assert(other@.parts[i as int] == other.parts@[i as int]@);
            if self.parts[i] != other.parts[i] {
                return false;
            }
            i += 1;
        }
        assert(self@.parts =~= other@.parts);
        true
    }
}

/// Lowers the ASCII capitals of a text.
pub fn lower_ascii(s: &str) -> (r: String)
    ensures
        r@ == ascii_lowered(s@),
{
    let v = chars_of(s);
    let mut out = String::new();
    let mut i: usize = 0;
    while i < v.len()
        invariant
            i <= v@.len(),
            out@ == ascii_lowered(v@).take(i as int),
        decreases v.len() - i,
    {
        out.push(to_ascii_lower(v[i]));
        assert(out@ =~= ascii_lowered(v@).take(i + 1));
        i += 1;
    }
    assert(ascii_lowered(v@).take(i as int) =~= ascii_lowered(v@));
    out
}

/// The order of part lists: part by part, a shorter list before a longer one.
pub open spec fn parts_below(a: Seq<Seq<char>>, b: Seq<Seq<char>>) -> bool
    decreases b.len(),
{
    if b.len() == 0 {
        false
    } else if a.len() == 0 {
        true
    } else if a[0] == b[0] {
        parts_below(a.drop_first(), b.drop_first())
    } else {
        text_below(a[0], b[0])
    }
}

/// The order of paths: by root, then by parts.
pub open spec fn path_below(a: PathModel, b: PathModel) -> bool {
    if a.root == b.root {
        parts_below(a.parts, b.parts)
    } else {
        text_below(a.root, b.root)
    }
}

/// Compares the parts of two paths from part `i` on.
fn rank_parts(a: &FilePath, b: &FilePath, i: usize) -> (r: Rank)
    requires
        i <= a.parts@.len(),
        i <= b.parts@.len(),
    ensures
        match r {
            Rank::Below => parts_below(a@.parts.skip(i as int), b@.parts.skip(i as int)),
            Rank::Same => a@.parts.skip(i as int) == b@.parts.skip(i as int),
            Rank::Above => parts_below(b@.parts.skip(i as int), a@.parts.skip(i as int)),
        },
    decreases a.parts@.len() - i,
{
    let ghost x = a@.parts.skip(i as int);
    let ghost y = b@.parts.skip(i as int);
    if i == a.parts.len() {
        if i == b.parts.len() {
            assert(x =~= y);
            Rank::Same
        } else {
            Rank::Below
        }
    } else if i == b.parts.len() {
        Rank::Above
    } else {
        assert(x[0] == a.parts@[i as int]@);
        assert(y[0] == b.parts@[i as int]@);
        assert(x.drop_first() =~= a@.parts.skip(i + 1));
        assert(y.drop_first() =~= b@.parts.skip(i + 1));
        proof {
            crate::ordered::text_below_is_strict(x[0]);
        }
        match rank_texts(a.parts[i].as_str(), b.parts[i].as_str()) {
            Rank::Below => Rank::Below,
            Rank::Above => Rank::Above,
            Rank::Same => {
                let rest = rank_parts(a, b, i + 1);
                proof {
                    if rest == Rank::Same {
                        assert(x =~= seq![x[0]] + x.drop_first());
                        assert(y =~= seq![y[0]] + y.drop_first());
                    }
                }
                rest
            },
        }
    }
}

/// How two paths stand to each other.
pub fn rank_paths(a: &FilePath, b: &FilePath) -> (r: Rank)
    ensures
        match r {
            Rank::Below => path_below(a@, b@),
            Rank::Same => a@ == b@,
            Rank::Above => path_below(b@, a@),
        },
{
    proof {
        crate::ordered::text_below_is_strict(a.root@);
        assert(a@.parts.skip(0) =~= a@.parts);
        assert(b@.parts.skip(0) =~= b@.parts);
    }
    match rank_texts(a.root.as_str(), b.root.as_str()) {
        Rank::Below => Rank::Below,
        Rank::Above => Rank::Above,
        Rank::Same => rank_parts(a, b, 0),
    }
}

/// A file is a delimited text table, by its extension.
pub open spec fn delimited(path: FilePath) -> bool {
    match path@.extension() {
        Some(e) => ascii_lowered(e) == "csv"@ || ascii_lowered(e) == "tsv"@,
        None => false,
    }
}

/// Whether a file is a delimited text table, by its extension.
pub fn is_delimited_path(path: &FilePath) -> (r: bool)
    ensures
        r == delimited(*path),
{
    match path.extension() {
        Some(e) => {
            let lowered = lower_ascii(e.as_str());
            same(lowered.as_str(), "csv") || same(lowered.as_str(), "tsv")
        },
        None => false,
    }
}

/// A path leads back from what was joined to it, and the joined part is its name.
pub proof fn a_joined_part_is_the_file_name(path: PathModel, name: Seq<char>)
    ensures
        path.join(name).parent() == Some(path),
        name != "."@ && name != ".."@ ==> path.join(name).file_name() == Some(name),
        name != "."@ && name != ".."@ ==> forall|other: Seq<char>|
            #[trigger] path.join(name).with_file_name(other) == path.join(other),
{
    assert(path.join(name).parts.drop_last() =~= path.parts);
    if name != "."@ && name != ".."@ {
        assert forall|other: Seq<char>|
            #[trigger] path.join(name).with_file_name(other) == path.join(other) by {
            assert(path.join(name).parts.drop_last() =~= path.parts);
        }
    }
}

/// A name's extension is what stands behind its last point, where something
/// stands before it, and its stem is what stands before.
pub proof fn an_extension_stands_behind_the_last_point(stem: Seq<char>, extension: Seq<char>)
    requires
        stem.len() > 0,
        forall|i: int| 0 <= i < extension.len() ==> extension[i] != '.',
    ensures
        name_extension(stem + seq!['.'] + extension) == Some(extension),
        name_stem(stem + seq!['.'] + extension) == stem,
        name_extension(seq!['.'] + extension) is None,
        name_extension(extension) is None,
        name_stem(extension) == extension,
{
    point_before(stem, extension);
    let name = stem + seq!['.'] + extension;
    assert(name.skip(stem.len() as int + 1) =~= extension);
    assert(name.take(stem.len() as int) =~= stem);
    point_before(Seq::empty(), extension);
    assert(Seq::<char>::empty() + seq!['.'] + extension =~= seq!['.'] + extension);
    no_point(extension);
}

/// The last point is found before what has none.
proof fn point_before(stem: Seq<char>, extension: Seq<char>)
    requires
        forall|i: int| 0 <= i < extension.len() ==> extension[i] != '.',
    ensures
        last_dot(stem + seq!['.'] + extension) == Some(stem.len() as int),
    decreases extension.len(),
{
    let name = stem + seq!['.'] + extension;
    if extension.len() == 0 {
        assert(name.last() == '.');
    } else {
        point_before(stem, extension.drop_last());
        assert(name.drop_last() =~= stem + seq!['.'] + extension.drop_last());
        assert(name.last() == extension.last());
    }
}

/// What has no point has no last one.
proof fn no_point(name: Seq<char>)
    requires
        forall|i: int| 0 <= i < name.len() ==> name[i] != '.',
    ensures
        last_dot(name) is None,
    decreases name.len(),
{
    if name.len() > 0 {
        no_point(name.drop_last());
    }
}

/// A folder comes before what is in it, and no path comes before itself.
pub proof fn a_folder_comes_first(path: PathModel, name: Seq<char>)
    ensures
        path_below(path, path.join(name)),
        !path_below(path.join(name), path),
{
    prefix_below(path.parts, name);
}

/// Fewer parts come before more.
proof fn prefix_below(parts: Seq<Seq<char>>, name: Seq<char>)
    ensures
        parts_below(parts, parts.push(name)),
        !parts_below(parts.push(name), parts),
    decreases parts.len(),
{
    if parts.len() > 0 {
        prefix_below(parts.drop_first(), name);
        assert(parts.push(name).drop_first() =~= parts.drop_first().push(name));
        assert(parts.push(name)[0] == parts[0]);
    }
}

} // verus!
