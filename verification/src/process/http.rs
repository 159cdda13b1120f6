//! What the file server answers, once it is known what stands at the path
//! that was asked for.

use vstd::prelude::*;

verus! {

/// The status of an answer with content.
pub const STATUS_OK: u16 = 200;

/// The status of an answer for a path where nothing stands.
pub const STATUS_NOT_FOUND: u16 = 404;

/// The status of an answer for a file that cannot be read.
pub const STATUS_INTERNAL_SERVER_ERROR: u16 = 500;

/// What was found at the path that was asked for.
#[derive(Debug)]
pub enum Lookup {
    /// Nothing stands there.
    Missing,
    /// A file, with its text.
    File(String),
    /// A file that could not be read as text, with the reason.
    Unreadable(String),
    /// A directory, with the paths of its entries.
    Directory(Vec<String>),
}

/// The view of what was found.
pub enum LookupView {
    Missing,
    File(Seq<char>),
    Unreadable(Seq<char>),
    Directory(Seq<Seq<char>>),
}

impl View for Lookup {
    type V = LookupView;

    open spec fn view(&self) -> LookupView {
        match self {
            Lookup::Missing => LookupView::Missing,
            Lookup::File(text) => LookupView::File(text@),
            Lookup::Unreadable(why) => LookupView::Unreadable(why@),
            Lookup::Directory(entries) => LookupView::Directory(
                Seq::new(entries@.len(), |i: int| entries@[i]@),
            ),
        }
    }
}

/// The item of the listing that links to `path`.
pub open spec fn listing_item(path: Seq<char>) -> Seq<char> {
    "\n                <li><a href=\""@ + path + "\">"@ + path
        + "</a></li>\n                "@
}

/// The items of the listing, one for each path and in their order.
pub open spec fn listing_items(paths: Seq<Seq<char>>) -> Seq<char>
    decreases paths.len(),
{
    if paths.len() == 0 {
        Seq::empty()
    } else {
        listing_items(paths.drop_last()) + listing_item(paths.last())
    }
}

/// The status and the body of the answer.
pub open spec fn reply_spec(found: LookupView) -> (u16, Seq<char>) {
    match found {
        LookupView::Missing => (STATUS_NOT_FOUND, "File not found"@),
        LookupView::File(text) => (STATUS_OK, text),
        LookupView::Unreadable(why) => (STATUS_INTERNAL_SERVER_ERROR, why),
        LookupView::Directory(paths) => (STATUS_OK, "<ul>"@ + listing_items(paths) + "</ul>"@),
    }
}

/// The listing of a directory: a list with one link for each entry.
pub fn directory_listing(entries: &Vec<String>) -> (body: String)
    ensures
        body@ == "<ul>"@ + listing_items(Seq::new(entries@.len(), |i: int| entries@[i]@))
            + "</ul>"@,
{
    let ghost paths = Seq::new(entries@.len(), |i: int| entries@[i]@);
    let mut items = String::new();
    let mut i: usize = 0;
    assert(paths.subrange(0, 0) =~= Seq::<Seq<char>>::empty());
    while i < entries.len()
        invariant
            i <= entries@.len(),
            paths == Seq::new(entries@.len(), |i: int| entries@[i]@),
            items@ == listing_items(paths.subrange(0, i as int)),
        decreases entries@.len() - i,
    {
        let path = entries[i].as_str();
        let ghost before = items@;
        items.append("\n                <li><a href=\"");
        items.append(path);
        items.append("\">");
        items.append(path);
        items.append("</a></li>\n                ");
        proof {
            let next = paths.subrange(0, i as int + 1);
            assert(next.drop_last() =~= paths.subrange(0, i as int));
            assert(next.last() == path@);
            assert(items@ =~= before + listing_item(path@));
        }
        i += 1;
    }
    assert(paths.subrange(0, i as int) =~= paths);
    let mut body = "<ul>".to_owned();
    body.append(items.as_str());
    body.append("</ul>");
    body
}

/// The answer to a request, from what was found at its path.
pub fn file_reply(found: Lookup) -> (reply: (u16, String))
    ensures
        (reply.0, reply.1@) == reply_spec(found@),
{
    match found {
        Lookup::Missing => (STATUS_NOT_FOUND, "File not found".to_owned()),
        Lookup::File(text) => (STATUS_OK, text),
        Lookup::Unreadable(why) => (STATUS_INTERNAL_SERVER_ERROR, why),
        Lookup::Directory(entries) => (STATUS_OK, directory_listing(&entries)),
    }
}

} // verus!
