//! Relative references inside the archive: how a link written in a document
//! names another entry of the book.

use vstd::prelude::*;
use crate::epub::{image_path, page_name, volume_dir, xhtml_path};

verus! {

/// The path of the directory whose path segments are `dir`: each segment
/// followed by `/`.
pub open spec fn dir_path(dir: Seq<Seq<char>>) -> Seq<char>
    decreases dir.len(),
{
    if dir.len() == 0 {
        Seq::empty()
    } else {
        dir_path(dir.drop_last()) + dir.last() + "/"@
    }
}

/// The archive path that the relative reference `href` names from the
/// directory whose path segments are `dir`: each leading `../` goes up one
/// directory, and what is left is taken inside the directory reached.
pub open spec fn resolve_relative(dir: Seq<Seq<char>>, href: Seq<char>) -> Seq<char>
    decreases href.len(),
{
    if dir.len() > 0 && href.len() >= 3 && href.take(3) == "../"@ {
        resolve_relative(dir.drop_last(), href.skip(3))
    } else {
        dir_path(dir) + href
    }
}

/// The directory, by segments, of the XHTML documents of volume `v`.
pub open spec fn page_dir(tag: Seq<char>, v: nat) -> Seq<Seq<char>> {
    seq!["OEBPS"@, "Text"@, tag, volume_dir(v)]
}

proof fn lemma_up(dir: Seq<Seq<char>>, rest: Seq<char>)
    requires
        dir.len() > 0,
    ensures
        resolve_relative(dir, "../"@ + rest) == resolve_relative(dir.drop_last(), rest),
{
    reveal_strlit("../");
    assert(("../"@ + rest).take(3) =~= "../"@);
    assert(("../"@ + rest).skip(3) =~= rest);
}

proof fn lemma_stop(dir: Seq<Seq<char>>, rest: Seq<char>)
    requires
        rest.len() > 0,
        rest[0] != '.',
    ensures
        resolve_relative(dir, rest) == dir_path(dir) + rest,
{
    reveal_strlit("../");
    if rest.len() >= 3 {
        assert(rest.take(3)[0] != "../"@[0]);
    }
}

/// The references of a page document, resolved from the directory of that
/// document: the directory followed by the page's file name is the archive
/// path of the document, `../../style.css` names `OEBPS/Text/style.css`,
/// `../../../../kte-css/stylehacks.css` names `kte-css/stylehacks.css`, and
/// the image reference names the archive path of the page's image.
pub(crate) proof fn lemma_page_references(tag: Seq<char>, v: nat, p: nat)
    ensures
        dir_path(page_dir(tag, v)) + page_name(p) + ".xhtml"@ == xhtml_path(tag, v, p),
        resolve_relative(page_dir(tag, v), "../../style.css"@) == "OEBPS/Text/style.css"@,
        resolve_relative(page_dir(tag, v), "../../../../kte-css/stylehacks.css"@) == "kte-css/stylehacks.css"@,
        resolve_relative(
            page_dir(tag, v),
            "../../../Images/"@ + tag + "/"@ + volume_dir(v) + "/"@ + page_name(p) + ".jpg"@,
        ) == image_path(tag, v, p),
{
    let dir = page_dir(tag, v);
    reveal_strlit("../");
    reveal_strlit("/");
    reveal_strlit("OEBPS");
    reveal_strlit("Text");
    reveal_strlit("OEBPS/Text/");
    reveal_strlit("OEBPS/Images/");
    reveal_strlit("Images/");
    reveal_strlit("style.css");
    reveal_strlit("../../style.css");
    reveal_strlit("OEBPS/Text/style.css");
    reveal_strlit("kte-css/stylehacks.css");
    reveal_strlit("../../../../kte-css/stylehacks.css");
    reveal_strlit("../../../Images/");
    let d3 = dir.drop_last();
    let d2 = d3.drop_last();
    let d1 = d2.drop_last();
    let d0 = d1.drop_last();
    assert(d3 =~= seq!["OEBPS"@, "Text"@, tag]);
    assert(d2 =~= seq!["OEBPS"@, "Text"@]);
    assert(d1 =~= seq!["OEBPS"@]);
    assert(d0 =~= Seq::<Seq<char>>::empty());
    assert(dir_path(d0) =~= Seq::<char>::empty());
    assert(dir_path(d1) =~= "OEBPS"@ + "/"@);
    assert(dir_path(d2) =~= "OEBPS/Text/"@);
    assert(dir_path(d3) =~= "OEBPS/Text/"@ + tag + "/"@);
    assert(dir_path(dir) =~= "OEBPS/Text/"@ + tag + "/"@ + volume_dir(v) + "/"@);
    assert(dir_path(dir) + page_name(p) + ".xhtml"@ =~= xhtml_path(tag, v, p));

    // `../../style.css`
    let style_rest = "../"@ + "style.css"@;
    assert("../../style.css"@ =~= "../"@ + style_rest);
    lemma_up(dir, style_rest);
    lemma_up(d3, "style.css"@);
    lemma_stop(d2, "style.css"@);
    assert(dir_path(d2) + "style.css"@ =~= "OEBPS/Text/style.css"@);

    // `../../../../kte-css/stylehacks.css`
    let hacks = "kte-css/stylehacks.css"@;
    assert("../../../../kte-css/stylehacks.css"@ =~= "../"@ + ("../"@ + ("../"@ + ("../"@ + hacks))));
    lemma_up(dir, "../"@ + ("../"@ + ("../"@ + hacks)));
    lemma_up(d3, "../"@ + ("../"@ + hacks));
    lemma_up(d2, "../"@ + hacks);
    lemma_up(d1, hacks);
    lemma_stop(d0, hacks);
    assert(dir_path(d0) + hacks =~= hacks);

    // the image
    let image_rest = "Images/"@ + tag + "/"@ + volume_dir(v) + "/"@ + page_name(p) + ".jpg"@;
    let image_ref = "../../../Images/"@ + tag + "/"@ + volume_dir(v) + "/"@ + page_name(p) + ".jpg"@;
    assert(image_ref =~= "../"@ + ("../"@ + ("../"@ + image_rest)));
    lemma_up(dir, "../"@ + ("../"@ + image_rest));
    lemma_up(d3, "../"@ + image_rest);
    lemma_up(d2, image_rest);
    assert(image_rest[0] == 'I');
    lemma_stop(d1, image_rest);
    assert(dir_path(d1) + image_rest =~= image_path(tag, v, p));
}

} // verus!
