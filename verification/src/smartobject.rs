//! The smart-object catalog: an in-memory list of catalog items built
//! from plain file names, with name filtering and pagination. Listing
//! the directory itself happens outside the library; the catalog takes
//! the names as values.

use vstd::prelude::*;

use crate::bytes::{bytes_text, sub_vec, text_of};
use crate::textutil::{spec_contains, str_contains};
use vstd::string::StringExecFns;
use vstd::string::StringSliceAdditionalSpecFns;

verus! {

/// One catalog item: its numeric id, its file name, and the name of its
/// thumbnail image.
#[derive(Debug, PartialEq, Eq)]
pub struct SmartObjectItem {
    pub id: i32,
    pub name: String,
    pub thumb: String,
}

/// An item at the specification level.
pub struct SpecItem {
    pub id: int,
    pub name: Seq<char>,
    pub thumb: Seq<char>,
}

impl View for SmartObjectItem {
    type V = SpecItem;

    open spec fn view(&self) -> SpecItem {
        SpecItem { id: self.id as int, name: self.name@, thumb: self.thumb@ }
    }
}

/// One page of filtered items.
#[derive(Debug, PartialEq, Eq)]
pub struct PaginationItems {
    pub page: usize,
    pub total_page: usize,
    pub current_items: Vec<SmartObjectItem>,
}

/// A file name's bytes with every trailing `.psb` run removed.
pub open spec fn spec_strip_psb(s: Seq<u8>) -> Seq<u8>
    decreases s.len(),
{
    if s.len() >= 4 && s.subrange(s.len() - 4, s.len() as int) == ".psb".spec_bytes() {
        spec_strip_psb(s.subrange(0, s.len() - 4))
    } else {
        s
    }
}

/// The thumbnail name of a catalog file: its name with trailing `.psb`
/// runs removed and `.png` appended.
pub open spec fn spec_thumb_of(name: Seq<u8>) -> Seq<char> {
    text_of(spec_strip_psb(name)) + ".png"@
}

/// The item a file name gives: id zero, the name itself, and its
/// thumbnail name.
pub open spec fn spec_item_of(name: Seq<char>) -> SpecItem {
    SpecItem { id: 0, name: name, thumb: spec_thumb_of(vstd::utf8::encode_utf8(name)) }
}

/// The items kept by a name filter, in order.
pub open spec fn spec_filter_items(files: Seq<SpecItem>, pat: Seq<u8>) -> Seq<SpecItem>
    decreases files.len(),
{
    if files.len() == 0 {
        Seq::<SpecItem>::empty()
    } else {
        let rest = spec_filter_items(files.drop_last(), pat);
        if spec_contains(vstd::utf8::encode_utf8(files.last().name), pat) {
            rest.push(files.last())
        } else {
            rest
        }
    }
}

/// Removes every trailing `.psb` run, as `spec_strip_psb` describes.
fn strip_psb(name: &[u8]) -> (r: Vec<u8>)
    ensures
        r@ == spec_strip_psb(name@),
    decreases name@.len(),
{
    let n = name.len();
    if n >= 4 {
        let tail = sub_vec(name, n - 4, n);
        if crate::resolver::bytes_eq(tail.as_slice(), ".psb".as_bytes()) {
            let head = sub_vec(name, 0, n - 4);
            return strip_psb(head.as_slice());
        }
    }
    sub_vec(name, 0, n)
}

/// Builds the catalog item of one file name, as `spec_item_of`
/// describes.
pub fn item_of(name: &str) -> (r: SmartObjectItem)
    ensures
        r@ == spec_item_of(name@),
{
    let stripped = strip_psb(name.as_bytes());
    let mut thumb = bytes_text(stripped);
    thumb.append(".png");
    SmartObjectItem { id: 0, name: name.to_owned(), thumb }
}

/// The smart-object catalog: where it lives on disk, its items, and the
/// port its thumbnails are served from.
#[derive(Debug)]
pub struct SmartObjects {
    smartobject_dir: String,
    pub files: Vec<SmartObjectItem>,
    root_path: String,
    http_server_port: u16,
}

impl SmartObjects {
    /// The items of the catalog, in order.
    pub closed spec fn items(self) -> Seq<SpecItem> {
        self.files@.map_values(|it: SmartObjectItem| it@)
    }

    /// Builds a catalog over a store root and the file names listed
    /// under its smart-object directory.
    pub fn new(root_folder: &str, http_server_port: u16, file_names: &Vec<String>) -> (r:
        SmartObjects)
        ensures
            r.items() == file_names@.map_values(|n: String| spec_item_of(n@)),
    {
        let mut dir = root_folder.to_owned();
        dir.append("/smartobject");
        let files = items_from_names(file_names);
        SmartObjects {
            smartobject_dir: dir,
            files,
            root_path: root_folder.to_owned(),
            http_server_port,
        }
    }

    /// Appends one item to the catalog.
    pub fn add_file(&mut self, new_item: &SmartObjectItem)
        ensures
            final(self).items() == old(self).items().push(new_item@),
    {
        let ghost before = self.items();
        self.files.push(
            SmartObjectItem {
                id: new_item.id,
                name: new_item.name.clone(),
                thumb: new_item.thumb.clone(),
            },
        );
        proof {
            assert(self.items() =~= before.push(new_item@));
        }
    }

    /// Removes the first item whose name is `file_name`, where the
    /// catalog holds one; otherwise the catalog is unchanged.
    pub fn remove_file(&mut self, file_name: &str)
        ensures
            match spec_first_named(old(self).items(), file_name@) {
                Some(i) => final(self).items() == old(self).items().subrange(0, i) + old(
                    self,
                ).items().subrange(i + 1, old(self).items().len() as int),
                None => final(self).items() == old(self).items(),
            },
    {
        let ghost items0 = self.items();
        let mut i: usize = 0;
        while i < self.files.len()
            invariant
                i <= self.files@.len(),
                self.items() == items0,
                items0 == old(self).items(),
                spec_first_named(items0, file_name@) == spec_first_named_from(
                    items0,
                    file_name@,
                    i as int,
                ),
            decreases self.files@.len() - i,
        {
            let hit = crate::resolver::bytes_eq(
                self.files[i].name.as_str().as_bytes(),
                file_name.as_bytes(),
            );
            proof {
                vstd::utf8::encode_utf8_decode_utf8(self.files@[i as int].name@);
                vstd::utf8::encode_utf8_decode_utf8(file_name@);
            }
            if hit {
                proof {
                    assert(spec_first_named_from(items0, file_name@, i as int) == Some(i as int));
                }
                self.files.remove(i);
                proof {
                    assert(self.items() =~= items0.subrange(0, i as int) + items0.subrange(
                        i + 1,
                        items0.len() as int,
                    ));
                }
                return ;
            }
            proof {
                assert(items0[i as int].name != file_name@);
            }
            i = i + 1;
        }
    }

    /// Borrows all items.
    pub fn get_all_files(&self) -> (r: &Vec<SmartObjectItem>)
        ensures
            r@.map_values(|it: SmartObjectItem| it@) == self.items(),
    {
        &self.files
    }

    /// Replaces the items with those built from a fresh name listing and
    /// returns the new items.
    pub fn update_files(&mut self, file_names: &Vec<String>) -> (r: Vec<SmartObjectItem>)
        ensures
            final(self).items() == file_names@.map_values(|n: String| spec_item_of(n@)),
            r@.map_values(|it: SmartObjectItem| it@) == final(self).items(),
    {
        self.files = items_from_names(file_names);
        items_from_names(file_names)
    }

    /// The items whose name contains `filter`, in order.
    pub fn filter(&self, filter: &str) -> (r: Vec<SmartObjectItem>)
        ensures
            r@.map_values(|it: SmartObjectItem| it@) == spec_filter_items(
                self.items(),
                filter.spec_bytes(),
            ),
    {
        filter_vec(&self.files, filter)
    }

    /// One page of the items whose name contains `filter`: the page
    /// index, the number of pages the filtered items fill, and the items
    /// of the requested page; a page beyond the end is empty.
    pub fn filter_chunk(&self, filter: &str, page: usize, per_page: usize) -> (r: PaginationItems)
        requires
            per_page > 0,
        ensures
            ({
                let kept = spec_filter_items(self.items(), filter.spec_bytes());
                let start = if page * per_page <= kept.len() {
                    page * per_page
                } else {
                    kept.len() as int
                };
                let end = if start + per_page <= kept.len() {
                    start + per_page
                } else {
                    kept.len() as int
                };
                &&& r.page == page
                &&& r.total_page == (kept.len() + per_page - 1) / (per_page as int)
                &&& r.current_items@.map_values(|it: SmartObjectItem| it@) == kept.subrange(
                    start,
                    end,
                )
            }),
    {
        let result = filter_vec(&self.files, filter);
        let len = result.len();
        let total_page = if len == 0 {
            0
        } else {
            (len - 1) / per_page + 1
        };
        proof {
            assert(total_page == (len + per_page - 1) / (per_page as int)) by (nonlinear_arith)
                requires
                    per_page > 0,
                    len >= 0,
                    total_page == if len == 0 {
                        0int
                    } else {
                        (len - 1) as int / (per_page as int) + 1
                    },
            ;
        }
        let start: usize = if page <= len / per_page {
            proof {
                assert(page * per_page <= (len / per_page) * per_page <= len) by (nonlinear_arith)
                    requires
                        per_page > 0,
                        page <= len / per_page,
                ;
            }
            let s = page * per_page;
            if s <= len {
                s
            } else {
                len
            }
        } else {
            proof {
                assert(page * per_page > len) by (nonlinear_arith)
                    requires
                        per_page > 0,
                        page > len / per_page,
                ;
            }
            len
        };
        let end: usize = if per_page <= len - start {
            start + per_page
        } else {
            len
        };
        let mut current_items: Vec<SmartObjectItem> = Vec::new();
        let mut k: usize = start;
        proof {
            assert(current_items@.map_values(|it: SmartObjectItem| it@) =~= result@.map_values(
                |it: SmartObjectItem| it@,
            ).subrange(start as int, start as int));
        }
        while k < end
            invariant
                start <= k <= end <= result@.len(),
                current_items@.map_values(|it: SmartObjectItem| it@) == result@.map_values(
                    |it: SmartObjectItem| it@,
                ).subrange(start as int, k as int),
            decreases end - k,
        {
            let ghost pre = current_items@.map_values(|it: SmartObjectItem| it@);
            let it = &result[k];
            current_items.push(
                SmartObjectItem { id: it.id, name: it.name.clone(), thumb: it.thumb.clone() },
            );
            k = k + 1;
            proof {
                assert(current_items@.map_values(|it: SmartObjectItem| it@) =~= pre.push(
                    result@[k - 1]@,
                ));
                assert(result@.map_values(|it: SmartObjectItem| it@).subrange(
                    start as int,
                    k as int,
                ) =~= pre.push(result@[k - 1]@));
            }
        }
        PaginationItems { page, total_page, current_items }
    }

    /// The `.psb` file name of a file: the stem of its path's final
    /// component with the catalog's extension, or nothing where the path
    /// has no stem.
    pub fn to_psb(&self, filename: &str) -> (r: Option<String>)
        ensures
            match r {
                Some(s) => crate::textutil::spec_path_stem(filename.spec_bytes()) matches Some(st)
                    && s@ == text_of(st) + ".psb"@,
                None => crate::textutil::spec_path_stem(filename.spec_bytes()) is None,
            },
    {
        let stem = match crate::textutil::path_stem(filename) {
            None => {
                return None;
            },
            Some(v) => v,
        };
        let mut s = bytes_text(stem);
        s.append(".psb");
        Some(s)
    }
}

/// The index of the first item named `name`, starting the search at `i`.
pub open spec fn spec_first_named_from(items: Seq<SpecItem>, name: Seq<char>, i: int) -> Option<
    int,
>
    decreases items.len() - i,
{
    if !(0 <= i < items.len()) {
        None
    } else if items[i].name == name {
        Some(i)
    } else {
        spec_first_named_from(items, name, i + 1)
    }
}

/// The index of the first item named `name`, if any.
pub open spec fn spec_first_named(items: Seq<SpecItem>, name: Seq<char>) -> Option<int> {
    spec_first_named_from(items, name, 0)
}

/// Builds one catalog item per file name, in order.
fn items_from_names(file_names: &Vec<String>) -> (r: Vec<SmartObjectItem>)
    ensures
        r@.map_values(|it: SmartObjectItem| it@) == file_names@.map_values(
            |n: String| spec_item_of(n@),
        ),
{
    let mut files: Vec<SmartObjectItem> = Vec::new();
    let mut i: usize = 0;
    proof {
        assert(files@.map_values(|it: SmartObjectItem| it@) =~= file_names@.take(0).map_values(
            |n: String| spec_item_of(n@),
        ));
    }
    while i < file_names.len()
        invariant
            i <= file_names@.len(),
            files@.map_values(|it: SmartObjectItem| it@) == file_names@.take(i as int).map_values(
                |n: String| spec_item_of(n@),
            ),
        decreases file_names@.len() - i,
    {
        let ghost pre = files@.map_values(|it: SmartObjectItem| it@);
        files.push(item_of(file_names[i].as_str()));
        i = i + 1;
        proof {
            assert(files@.map_values(|it: SmartObjectItem| it@) =~= pre.push(
                spec_item_of(file_names@[i - 1]@),
            ));
            assert(file_names@.take(i as int).map_values(|n: String| spec_item_of(n@)) =~= pre.push(
                spec_item_of(file_names@[i - 1]@),
            ));
        }
    }
    proof {
        assert(file_names@.take(i as int) =~= file_names@);
    }
    files
}

/// Keeps the items whose name contains `filter`, as `spec_filter_items`
/// describes.
fn filter_vec(files: &Vec<SmartObjectItem>, filter: &str) -> (r: Vec<SmartObjectItem>)
    ensures
        r@.map_values(|it: SmartObjectItem| it@) == spec_filter_items(
            files@.map_values(|it: SmartObjectItem| it@),
            filter.spec_bytes(),
        ),
{
    let ghost all = files@.map_values(|it: SmartObjectItem| it@);
    let mut out: Vec<SmartObjectItem> = Vec::new();
    let mut i: usize = 0;
    proof {
        assert(all.take(0) =~= Seq::<SpecItem>::empty());
        assert(out@.map_values(|it: SmartObjectItem| it@) =~= spec_filter_items(
            all.take(0),
            filter.spec_bytes(),
        ));
    }
    while i < files.len()
        invariant
            i <= files@.len(),
            all == files@.map_values(|it: SmartObjectItem| it@),
            out@.map_values(|it: SmartObjectItem| it@) == spec_filter_items(
                all.take(i as int),
                filter.spec_bytes(),
            ),
        decreases files@.len() - i,
    {
        let ghost pre = out@.map_values(|it: SmartObjectItem| it@);
        let it = &files[i];
        let keep = str_contains(it.name.as_str(), filter);
        if keep {
            out.push(SmartObjectItem { id: it.id, name: it.name.clone(), thumb: it.thumb.clone() });
        }
        i = i + 1;
        proof {
            assert(all.take(i as int).drop_last() =~= all.take(i - 1));
            assert(all.take(i as int).last() == all[i - 1]);
            if keep {
                assert(out@.map_values(|it: SmartObjectItem| it@) =~= pre.push(all[i - 1]));
            }
            assert(out@.map_values(|it: SmartObjectItem| it@) =~= spec_filter_items(
                all.take(i as int),
                filter.spec_bytes(),
            ));
        }
    }
    proof {
        assert(all.take(i as int) =~= all);
    }
    out
}

} // verus!
