//! No suffix of either classification table can stand at the end of a
//! URL that ends in the Windows-executable suffix: such a URL is always
//! ignored. The tables are compared entry by entry against that suffix.
use vstd::prelude::*;

use crate::classify::{has_suffix_in, spec_classify, strip_query, AttachmentKind};
use crate::text_types::{image_suffixes, text_suffixes};
use crate::text_types::{text_suffixes_a, text_suffixes_b, text_suffixes_c, text_suffixes_d, text_suffixes_e, text_suffixes_f, text_suffixes_g, text_suffixes_h, text_suffixes_i};

verus! {

/// Two suffixes of one text line up at its end: the shorter is a suffix
/// of the longer.
pub proof fn lemma_suffix_align(s: Seq<char>, a: Seq<char>, b: Seq<char>)
    requires
        a.is_suffix_of(s),
        b.is_suffix_of(s),
        a.len() <= b.len(),
    ensures
        a == b.skip(b.len() - a.len()),
{
    assert(a =~= b.skip(b.len() - a.len()));
}

proof fn image_table_avoids_exe(s: Seq<char>)
    requires
        (".exe"@).is_suffix_of(s),
    ensures
        forall|i: int|
            0 <= i < image_suffixes().len() ==> !(#[trigger] image_suffixes()[i]).is_suffix_of(s),
{
    reveal_strlit(".exe");
    reveal_strlit(".jpg");
    reveal_strlit(".jpeg");
    reveal_strlit(".png");
    assert forall|i: int| 0 <= i < image_suffixes().len() implies !(#[trigger] image_suffixes()[i]).is_suffix_of(s) by {
        if i == 0 {
            assert(image_suffixes()[0] == ".jpg"@);
            if (".jpg"@).is_suffix_of(s) {
                lemma_suffix_align(s, ".jpg"@, ".exe"@);
                assert((".jpg"@)[1] == (".exe"@).skip(0)[1]);
                assert(false);
            }
        } else if i == 1 {
            assert(image_suffixes()[1] == ".jpeg"@);
            if (".jpeg"@).is_suffix_of(s) {
                lemma_suffix_align(s, ".exe"@, ".jpeg"@);
                assert((".exe"@)[0] == (".jpeg"@).skip(1)[0]);
                assert(false);
            }
        } else {
            assert(image_suffixes()[2] == ".png"@);
            if (".png"@).is_suffix_of(s) {
                lemma_suffix_align(s, ".png"@, ".exe"@);
                assert((".png"@)[1] == (".exe"@).skip(0)[1]);
                assert(false);
            }
        }
    }
}

proof fn text_table_a_avoids_exe(s: Seq<char>)
    requires
        (".exe"@).is_suffix_of(s),
    ensures
        forall|i: int|
            0 <= i < text_suffixes_a().len() ==> !(#[trigger] text_suffixes_a()[i]).is_suffix_of(s),
{
    reveal_strlit(".exe");
    reveal_strlit(".adb");
    reveal_strlit(".ads");
    reveal_strlit(".ahk");
    reveal_strlit(".applescript");
    reveal_strlit(".as");
    reveal_strlit(".au3");
    reveal_strlit(".awk");
    reveal_strlit(".bas");
    reveal_strlit(".bat");
    reveal_strlit(".btm");
    reveal_strlit(".c");
    reveal_strlit(".cia");
    reveal_strlit(".class");
    reveal_strlit(".cljs");
    reveal_strlit(".cmd");
    reveal_strlit(".coffee");
    reveal_strlit(".cpp");
    reveal_strlit(".cs");
    reveal_strlit(".egg");
    reveal_strlit(".fs");
    reveal_strlit(".json");
    reveal_strlit(".md");
    reveal_strlit(".scpt");
    reveal_strlit(".scptd");
    reveal_strlit(".txt");
    assert forall|i: int| 0 <= i < text_suffixes_a().len() implies !(#[trigger] text_suffixes_a()[i]).is_suffix_of(s) by {
        if i == 0 {
            assert(text_suffixes_a()[0] == ".txt"@);
            if (".txt"@).is_suffix_of(s) {
                lemma_suffix_align(s, ".txt"@, ".exe"@);
                assert((".txt"@)[1] == (".exe"@).skip(0)[1]);
                assert(false);
            }
        } else if i == 1 {
            assert(text_suffixes_a()[1] == ".json"@);
            if (".json"@).is_suffix_of(s) {
                lemma_suffix_align(s, ".exe"@, ".json"@);
                assert((".exe"@)[0] == (".json"@).skip(1)[0]);
                assert(false);
            }
        } else if i == 2 {
            assert(text_suffixes_a()[2] == ".md"@);
            if (".md"@).is_suffix_of(s) {
                lemma_suffix_align(s, ".md"@, ".exe"@);
                assert((".md"@)[0] == (".exe"@).skip(1)[0]);
                assert(false);
            }
        } else if i == 3 {
            assert(text_suffixes_a()[3] == ".adb"@);
            if (".adb"@).is_suffix_of(s) {
                lemma_suffix_align(s, ".adb"@, ".exe"@);
                assert((".adb"@)[1] == (".exe"@).skip(0)[1]);
                assert(false);
            }
        } else if i == 4 {
            assert(text_suffixes_a()[4] == ".ads"@);
            if (".ads"@).is_suffix_of(s) {
                lemma_suffix_align(s, ".ads"@, ".exe"@);
                assert((".ads"@)[1] == (".exe"@).skip(0)[1]);
                assert(false);
            }
        } else if i == 5 {
            assert(text_suffixes_a()[5] == ".ahk"@);
            if (".ahk"@).is_suffix_of(s) {
                lemma_suffix_align(s, ".ahk"@, ".exe"@);
                assert((".ahk"@)[1] == (".exe"@).skip(0)[1]);
                assert(false);
            }
        } else if i == 6 {
            assert(text_suffixes_a()[6] == ".applescript"@);
            if (".applescript"@).is_suffix_of(s) {
                lemma_suffix_align(s, ".exe"@, ".applescript"@);
                assert((".exe"@)[0] == (".applescript"@).skip(8)[0]);
                assert(false);
            }
        } else if i == 7 {
            assert(text_suffixes_a()[7] == ".scpt"@);
            if (".scpt"@).is_suffix_of(s) {
                lemma_suffix_align(s, ".exe"@, ".scpt"@);
                assert((".exe"@)[0] == (".scpt"@).skip(1)[0]);
                assert(false);
            }
        } else if i == 8 {
            assert(text_suffixes_a()[8] == ".scptd"@);
            if (".scptd"@).is_suffix_of(s) {
                lemma_suffix_align(s, ".exe"@, ".scptd"@);
                assert((".exe"@)[0] == (".scptd"@).skip(2)[0]);
                assert(false);
            }
        } else if i == 9 {
            assert(text_suffixes_a()[9] == ".as"@);
            if (".as"@).is_suffix_of(s) {
                lemma_suffix_align(s, ".as"@, ".exe"@);
                assert((".as"@)[0] == (".exe"@).skip(1)[0]);
                assert(false);
            }
        } else if i == 10 {
            assert(text_suffixes_a()[10] == ".au3"@);
            if (".au3"@).is_suffix_of(s) {
                lemma_suffix_align(s, ".au3"@, ".exe"@);
                assert((".au3"@)[1] == (".exe"@).skip(0)[1]);
                assert(false);
            }
        } else if i == 11 {
            assert(text_suffixes_a()[11] == ".awk"@);
            if (".awk"@).is_suffix_of(s) {
                lemma_suffix_align(s, ".awk"@, ".exe"@);
                assert((".awk"@)[1] == (".exe"@).skip(0)[1]);
                assert(false);
            }
        } else if i == 12 {
            assert(text_suffixes_a()[12] == ".bat"@);
            if (".bat"@).is_suffix_of(s) {
                lemma_suffix_align(s, ".bat"@, ".exe"@);
                assert((".bat"@)[1] == (".exe"@).skip(0)[1]);
                assert(false);
            }
        } else if i == 13 {
            assert(text_suffixes_a()[13] == ".bas"@);
            if (".bas"@).is_suffix_of(s) {
                lemma_suffix_align(s, ".bas"@, ".exe"@);
                assert((".bas"@)[1] == (".exe"@).skip(0)[1]);
                assert(false);
            }
        } else if i == 14 {
            assert(text_suffixes_a()[14] == ".btm"@);
            if (".btm"@).is_suffix_of(s) {
                lemma_suffix_align(s, ".btm"@, ".exe"@);
                assert((".btm"@)[1] == (".exe"@).skip(0)[1]);
                assert(false);
            }
        } else if i == 15 {
            assert(text_suffixes_a()[15] == ".class"@);
            if (".class"@).is_suffix_of(s) {
                lemma_suffix_align(s, ".exe"@, ".class"@);
                assert((".exe"@)[0] == (".class"@).skip(2)[0]);
                assert(false);
            }
        } else if i == 16 {
            assert(text_suffixes_a()[16] == ".cljs"@);
            if (".cljs"@).is_suffix_of(s) {
                lemma_suffix_align(s, ".exe"@, ".cljs"@);
                assert((".exe"@)[0] == (".cljs"@).skip(1)[0]);
                assert(false);
            }
        } else if i == 17 {
            assert(text_suffixes_a()[17] == ".cmd"@);
            if (".cmd"@).is_suffix_of(s) {
                lemma_suffix_align(s, ".cmd"@, ".exe"@);
                assert((".cmd"@)[1] == (".exe"@).skip(0)[1]);
                assert(false);
            }
        } else if i == 18 {
            assert(text_suffixes_a()[18] == ".coffee"@);
            if (".coffee"@).is_suffix_of(s) {
                lemma_suffix_align(s, ".exe"@, ".coffee"@);
                assert((".exe"@)[0] == (".coffee"@).skip(3)[0]);
                assert(false);
            }
        } else if i == 19 {
            assert(text_suffixes_a()[19] == ".c"@);
            if (".c"@).is_suffix_of(s) {
                lemma_suffix_align(s, ".c"@, ".exe"@);
                assert((".c"@)[0] == (".exe"@).skip(2)[0]);
                assert(false);
            }
        } else if i == 20 {
            assert(text_suffixes_a()[20] == ".cia"@);
            if (".cia"@).is_suffix_of(s) {
                lemma_suffix_align(s, ".cia"@, ".exe"@);
                assert((".cia"@)[1] == (".exe"@).skip(0)[1]);
                assert(false);
            }
        } else if i == 21 {
            assert(text_suffixes_a()[21] == ".cpp"@);
            if (".cpp"@).is_suffix_of(s) {
                lemma_suffix_align(s, ".cpp"@, ".exe"@);
                assert((".cpp"@)[1] == (".exe"@).skip(0)[1]);
                assert(false);
            }
        } else if i == 22 {
            assert(text_suffixes_a()[22] == ".cs"@);
            if (".cs"@).is_suffix_of(s) {
                lemma_suffix_align(s, ".cs"@, ".exe"@);
                assert((".cs"@)[0] == (".exe"@).skip(1)[0]);
                assert(false);
            }
        } else if i == 23 {
            assert(text_suffixes_a()[23] == ".fs"@);
            if (".fs"@).is_suffix_of(s) {
                lemma_suffix_align(s, ".fs"@, ".exe"@);
                assert((".fs"@)[0] == (".exe"@).skip(1)[0]);
                assert(false);
            }
        } else {
            assert(text_suffixes_a()[24] == ".egg"@);
            if (".egg"@).is_suffix_of(s) {
                lemma_suffix_align(s, ".egg"@, ".exe"@);
                assert((".egg"@)[2] == (".exe"@).skip(0)[2]);
                assert(false);
            }
        }
    }
}

proof fn text_table_b_avoids_exe(s: Seq<char>)
    requires
        (".exe"@).is_suffix_of(s),
    ensures
        forall|i: int|
            0 <= i < text_suffixes_b().len() ==> !(#[trigger] text_suffixes_b()[i]).is_suffix_of(s),
{
    reveal_strlit(".exe");
    reveal_strlit(".egt");
    reveal_strlit(".erb");
    reveal_strlit(".go");
    reveal_strlit(".hta");
    reveal_strlit(".ibi");
    reveal_strlit(".ici");
    reveal_strlit(".ijs");
    reveal_strlit(".ino");
    reveal_strlit(".ipynb");
    reveal_strlit(".itcl");
    reveal_strlit(".js");
    reveal_strlit(".jsfl");
    reveal_strlit(".kt");
    reveal_strlit(".lua");
    reveal_strlit(".m");
    reveal_strlit(".mrc");
    reveal_strlit(".ncf");
    reveal_strlit(".nqp");
    reveal_strlit(".nuc");
    reveal_strlit(".nud");
    reveal_strlit(".nut");
    reveal_strlit(".o");
    reveal_strlit(".pde");
    reveal_strlit(".php");
    reveal_strlit(".pl");
    assert forall|i: int| 0 <= i < text_suffixes_b().len() implies !(#[trigger] text_suffixes_b()[i]).is_suffix_of(s) by {
        if i == 0 {
            assert(text_suffixes_b()[0] == ".egt"@);
            if (".egt"@).is_suffix_of(s) {
                lemma_suffix_align(s, ".egt"@, ".exe"@);
                assert((".egt"@)[2] == (".exe"@).skip(0)[2]);
                assert(false);
            }
        } else if i == 1 {
            assert(text_suffixes_b()[1] == ".erb"@);
            if (".erb"@).is_suffix_of(s) {
                lemma_suffix_align(s, ".erb"@, ".exe"@);
                assert((".erb"@)[2] == (".exe"@).skip(0)[2]);
                assert(false);
            }
        } else if i == 2 {
            assert(text_suffixes_b()[2] == ".go"@);
            if (".go"@).is_suffix_of(s) {
                lemma_suffix_align(s, ".go"@, ".exe"@);
                assert((".go"@)[0] == (".exe"@).skip(1)[0]);
                assert(false);
            }
        } else if i == 3 {
            assert(text_suffixes_b()[3] == ".hta"@);
            if (".hta"@).is_suffix_of(s) {
                lemma_suffix_align(s, ".hta"@, ".exe"@);
                assert((".hta"@)[1] == (".exe"@).skip(0)[1]);
                assert(false);
            }
        } else if i == 4 {
            assert(text_suffixes_b()[4] == ".ibi"@);
            if (".ibi"@).is_suffix_of(s) {
                lemma_suffix_align(s, ".ibi"@, ".exe"@);
                assert((".ibi"@)[1] == (".exe"@).skip(0)[1]);
                assert(false);
            }
        } else if i == 5 {
            assert(text_suffixes_b()[5] == ".ici"@);
            if (".ici"@).is_suffix_of(s) {
                lemma_suffix_align(s, ".ici"@, ".exe"@);
                assert((".ici"@)[1] == (".exe"@).skip(0)[1]);
                assert(false);
            }
        } else if i == 6 {
            assert(text_suffixes_b()[6] == ".ijs"@);
            if (".ijs"@).is_suffix_of(s) {
                lemma_suffix_align(s, ".ijs"@, ".exe"@);
                assert((".ijs"@)[1] == (".exe"@).skip(0)[1]);
                assert(false);
            }
        } else if i == 7 {
            assert(text_suffixes_b()[7] == ".ino"@);
            if (".ino"@).is_suffix_of(s) {
                lemma_suffix_align(s, ".ino"@, ".exe"@);
                assert((".ino"@)[1] == (".exe"@).skip(0)[1]);
                assert(false);
            }
        } else if i == 8 {
            assert(text_suffixes_b()[8] == ".ipynb"@);
            if (".ipynb"@).is_suffix_of(s) {
                lemma_suffix_align(s, ".exe"@, ".ipynb"@);
                assert((".exe"@)[0] == (".ipynb"@).skip(2)[0]);
                assert(false);
            }
        } else if i == 9 {
            assert(text_suffixes_b()[9] == ".itcl"@);
            if (".itcl"@).is_suffix_of(s) {
                lemma_suffix_align(s, ".exe"@, ".itcl"@);
                assert((".exe"@)[0] == (".itcl"@).skip(1)[0]);
                assert(false);
            }
        } else if i == 10 {
            assert(text_suffixes_b()[10] == ".js"@);
            if (".js"@).is_suffix_of(s) {
                lemma_suffix_align(s, ".js"@, ".exe"@);
                assert((".js"@)[0] == (".exe"@).skip(1)[0]);
                assert(false);
            }
        } else if i == 11 {
            assert(text_suffixes_b()[11] == ".jsfl"@);
            if (".jsfl"@).is_suffix_of(s) {
                lemma_suffix_align(s, ".exe"@, ".jsfl"@);
                assert((".exe"@)[0] == (".jsfl"@).skip(1)[0]);
                assert(false);
            }
        } else if i == 12 {
            assert(text_suffixes_b()[12] == ".kt"@);
            if (".kt"@).is_suffix_of(s) {
                lemma_suffix_align(s, ".kt"@, ".exe"@);
                assert((".kt"@)[0] == (".exe"@).skip(1)[0]);
                assert(false);
            }
        } else if i == 13 {
            assert(text_suffixes_b()[13] == ".lua"@);
            if (".lua"@).is_suffix_of(s) {
                lemma_suffix_align(s, ".lua"@, ".exe"@);
                assert((".lua"@)[1] == (".exe"@).skip(0)[1]);
                assert(false);
            }
        } else if i == 14 {
            assert(text_suffixes_b()[14] == ".m"@);
            if (".m"@).is_suffix_of(s) {
                lemma_suffix_align(s, ".m"@, ".exe"@);
                assert((".m"@)[0] == (".exe"@).skip(2)[0]);
                assert(false);
            }
        } else if i == 15 {
            assert(text_suffixes_b()[15] == ".mrc"@);
            if (".mrc"@).is_suffix_of(s) {
                lemma_suffix_align(s, ".mrc"@, ".exe"@);
                assert((".mrc"@)[1] == (".exe"@).skip(0)[1]);
                assert(false);
            }
        } else if i == 16 {
            assert(text_suffixes_b()[16] == ".ncf"@);
            if (".ncf"@).is_suffix_of(s) {
                lemma_suffix_align(s, ".ncf"@, ".exe"@);
                assert((".ncf"@)[1] == (".exe"@).skip(0)[1]);
                assert(false);
            }
        } else if i == 17 {
            assert(text_suffixes_b()[17] == ".nuc"@);
            if (".nuc"@).is_suffix_of(s) {
                lemma_suffix_align(s, ".nuc"@, ".exe"@);
                assert((".nuc"@)[1] == (".exe"@).skip(0)[1]);
                assert(false);
            }
        } else if i == 18 {
            assert(text_suffixes_b()[18] == ".nud"@);
            if (".nud"@).is_suffix_of(s) {
                lemma_suffix_align(s, ".nud"@, ".exe"@);
                assert((".nud"@)[1] == (".exe"@).skip(0)[1]);
                assert(false);
            }
        } else if i == 19 {
            assert(text_suffixes_b()[19] == ".nut"@);
            if (".nut"@).is_suffix_of(s) {
                lemma_suffix_align(s, ".nut"@, ".exe"@);
                assert((".nut"@)[1] == (".exe"@).skip(0)[1]);
                assert(false);
            }
        } else if i == 20 {
            assert(text_suffixes_b()[20] == ".nqp"@);
            if (".nqp"@).is_suffix_of(s) {
                lemma_suffix_align(s, ".nqp"@, ".exe"@);
                assert((".nqp"@)[1] == (".exe"@).skip(0)[1]);
                assert(false);
            }
        } else if i == 21 {
            assert(text_suffixes_b()[21] == ".o"@);
            if (".o"@).is_suffix_of(s) {
                lemma_suffix_align(s, ".o"@, ".exe"@);
                assert((".o"@)[0] == (".exe"@).skip(2)[0]);
                assert(false);
            }
        } else if i == 22 {
            assert(text_suffixes_b()[22] == ".pde"@);
            if (".pde"@).is_suffix_of(s) {
                lemma_suffix_align(s, ".pde"@, ".exe"@);
                assert((".pde"@)[1] == (".exe"@).skip(0)[1]);
                assert(false);
            }
        } else if i == 23 {
            assert(text_suffixes_b()[23] == ".php"@);
            if (".php"@).is_suffix_of(s) {
                lemma_suffix_align(s, ".php"@, ".exe"@);
                assert((".php"@)[1] == (".exe"@).skip(0)[1]);
                assert(false);
            }
        } else {
            assert(text_suffixes_b()[24] == ".pl"@);
            if (".pl"@).is_suffix_of(s) {
                lemma_suffix_align(s, ".pl"@, ".exe"@);
                assert((".pl"@)[0] == (".exe"@).skip(1)[0]);
                assert(false);
            }
        }
    }
}

proof fn text_table_c_avoids_exe(s: Seq<char>)
    requires
        (".exe"@).is_suffix_of(s),
    ensures
        forall|i: int|
            0 <= i < text_suffixes_c().len() ==> !(#[trigger] text_suffixes_c()[i]).is_suffix_of(s),
{
    reveal_strlit(".exe");
    reveal_strlit(".pm");
    reveal_strlit(".ps1");
    reveal_strlit(".ps1xml");
    reveal_strlit(".psc1");
    reveal_strlit(".psd1");
    reveal_strlit(".psm1");
    reveal_strlit(".py");
    reveal_strlit(".pyc");
    reveal_strlit(".pyo");
    reveal_strlit(".r");
    reveal_strlit(".rb");
    reveal_strlit(".rdp");
    reveal_strlit(".red");
    reveal_strlit(".rs");
    reveal_strlit(".sb2");
    reveal_strlit(".sb3");
    reveal_strlit(".scpt");
    reveal_strlit(".scptd");
    reveal_strlit(".sdl");
    reveal_strlit(".sh");
    reveal_strlit(".sprite3");
    reveal_strlit(".spwn");
    reveal_strlit(".syjs");
    reveal_strlit(".sypy");
    reveal_strlit(".tcl");
    assert forall|i: int| 0 <= i < text_suffixes_c().len() implies !(#[trigger] text_suffixes_c()[i]).is_suffix_of(s) by {
        if i == 0 {
            assert(text_suffixes_c()[0] == ".pm"@);
            if (".pm"@).is_suffix_of(s) {
                lemma_suffix_align(s, ".pm"@, ".exe"@);
                assert((".pm"@)[0] == (".exe"@).skip(1)[0]);
                assert(false);
            }
        } else if i == 1 {
            assert(text_suffixes_c()[1] == ".ps1"@);
            if (".ps1"@).is_suffix_of(s) {
                lemma_suffix_align(s, ".ps1"@, ".exe"@);
                assert((".ps1"@)[1] == (".exe"@).skip(0)[1]);
                assert(false);
            }
        } else if i == 2 {
            assert(text_suffixes_c()[2] == ".ps1xml"@);
            if (".ps1xml"@).is_suffix_of(s) {
                lemma_suffix_align(s, ".exe"@, ".ps1xml"@);
                assert((".exe"@)[0] == (".ps1xml"@).skip(3)[0]);
                assert(false);
            }
        } else if i == 3 {
            assert(text_suffixes_c()[3] == ".psc1"@);
            if (".psc1"@).is_suffix_of(s) {
                lemma_suffix_align(s, ".exe"@, ".psc1"@);
                assert((".exe"@)[0] == (".psc1"@).skip(1)[0]);
                assert(false);
            }
        } else if i == 4 {
            assert(text_suffixes_c()[4] == ".psd1"@);
            if (".psd1"@).is_suffix_of(s) {
                lemma_suffix_align(s, ".exe"@, ".psd1"@);
                assert((".exe"@)[0] == (".psd1"@).skip(1)[0]);
                assert(false);
            }
        } else if i == 5 {
            assert(text_suffixes_c()[5] == ".psm1"@);
            if (".psm1"@).is_suffix_of(s) {
                lemma_suffix_align(s, ".exe"@, ".psm1"@);
                assert((".exe"@)[0] == (".psm1"@).skip(1)[0]);
                assert(false);
            }
        } else if i == 6 {
            assert(text_suffixes_c()[6] == ".py"@);
            if (".py"@).is_suffix_of(s) {
                lemma_suffix_align(s, ".py"@, ".exe"@);
                assert((".py"@)[0] == (".exe"@).skip(1)[0]);
                assert(false);
            }
        } else if i == 7 {
            assert(text_suffixes_c()[7] == ".pyc"@);
            if (".pyc"@).is_suffix_of(s) {
                lemma_suffix_align(s, ".pyc"@, ".exe"@);
                assert((".pyc"@)[1] == (".exe"@).skip(0)[1]);
                assert(false);
            }
        } else if i == 8 {
            assert(text_suffixes_c()[8] == ".pyo"@);
            if (".pyo"@).is_suffix_of(s) {
                lemma_suffix_align(s, ".pyo"@, ".exe"@);
                assert((".pyo"@)[1] == (".exe"@).skip(0)[1]);
                assert(false);
            }
        } else if i == 9 {
            assert(text_suffixes_c()[9] == ".r"@);
            if (".r"@).is_suffix_of(s) {
                lemma_suffix_align(s, ".r"@, ".exe"@);
                assert((".r"@)[0] == (".exe"@).skip(2)[0]);
                assert(false);
            }
        } else if i == 10 {
            assert(text_suffixes_c()[10] == ".rb"@);
            if (".rb"@).is_suffix_of(s) {
                lemma_suffix_align(s, ".rb"@, ".exe"@);
                assert((".rb"@)[0] == (".exe"@).skip(1)[0]);
                assert(false);
            }
        } else if i == 11 {
            assert(text_suffixes_c()[11] == ".rdp"@);
            if (".rdp"@).is_suffix_of(s) {
                lemma_suffix_align(s, ".rdp"@, ".exe"@);
                assert((".rdp"@)[1] == (".exe"@).skip(0)[1]);
                assert(false);
            }
        } else if i == 12 {
            assert(text_suffixes_c()[12] == ".red"@);
            if (".red"@).is_suffix_of(s) {
                lemma_suffix_align(s, ".red"@, ".exe"@);
                assert((".red"@)[1] == (".exe"@).skip(0)[1]);
                assert(false);
            }
        } else if i == 13 {
            assert(text_suffixes_c()[13] == ".rs"@);
            if (".rs"@).is_suffix_of(s) {
                lemma_suffix_align(s, ".rs"@, ".exe"@);
                assert((".rs"@)[0] == (".exe"@).skip(1)[0]);
                assert(false);
            }
        } else if i == 14 {
            assert(text_suffixes_c()[14] == ".sb2"@);
            if (".sb2"@).is_suffix_of(s) {
                lemma_suffix_align(s, ".sb2"@, ".exe"@);
                assert((".sb2"@)[1] == (".exe"@).skip(0)[1]);
                assert(false);
            }
        } else if i == 15 {
            assert(text_suffixes_c()[15] == ".sb3"@);
            if (".sb3"@).is_suffix_of(s) {
                lemma_suffix_align(s, ".sb3"@, ".exe"@);
                assert((".sb3"@)[1] == (".exe"@).skip(0)[1]);
                assert(false);
            }
        } else if i == 16 {
            assert(text_suffixes_c()[16] == ".scpt"@);
            if (".scpt"@).is_suffix_of(s) {
                lemma_suffix_align(s, ".exe"@, ".scpt"@);
                assert((".exe"@)[0] == (".scpt"@).skip(1)[0]);
                assert(false);
            }
        } else if i == 17 {
            assert(text_suffixes_c()[17] == ".scptd"@);
            if (".scptd"@).is_suffix_of(s) {
                lemma_suffix_align(s, ".exe"@, ".scptd"@);
                assert((".exe"@)[0] == (".scptd"@).skip(2)[0]);
                assert(false);
            }
        } else if i == 18 {
            assert(text_suffixes_c()[18] == ".sdl"@);
            if (".sdl"@).is_suffix_of(s) {
                lemma_suffix_align(s, ".sdl"@, ".exe"@);
                assert((".sdl"@)[1] == (".exe"@).skip(0)[1]);
                assert(false);
            }
        } else if i == 19 {
            assert(text_suffixes_c()[19] == ".sh"@);
            if (".sh"@).is_suffix_of(s) {
                lemma_suffix_align(s, ".sh"@, ".exe"@);
                assert((".sh"@)[0] == (".exe"@).skip(1)[0]);
                assert(false);
            }
        } else if i == 20 {
            assert(text_suffixes_c()[20] == ".sprite3"@);
            if (".sprite3"@).is_suffix_of(s) {
                lemma_suffix_align(s, ".exe"@, ".sprite3"@);
                assert((".exe"@)[0] == (".sprite3"@).skip(4)[0]);
                assert(false);
            }
        } else if i == 21 {
            assert(text_suffixes_c()[21] == ".spwn"@);
            if (".spwn"@).is_suffix_of(s) {
                lemma_suffix_align(s, ".exe"@, ".spwn"@);
                assert((".exe"@)[0] == (".spwn"@).skip(1)[0]);
                assert(false);
            }
        } else if i == 22 {
            assert(text_suffixes_c()[22] == ".syjs"@);
            if (".syjs"@).is_suffix_of(s) {
                lemma_suffix_align(s, ".exe"@, ".syjs"@);
                assert((".exe"@)[0] == (".syjs"@).skip(1)[0]);
                assert(false);
            }
        } else if i == 23 {
            assert(text_suffixes_c()[23] == ".sypy"@);
            if (".sypy"@).is_suffix_of(s) {
                lemma_suffix_align(s, ".exe"@, ".sypy"@);
                assert((".exe"@)[0] == (".sypy"@).skip(1)[0]);
                assert(false);
            }
        } else {
            assert(text_suffixes_c()[24] == ".tcl"@);
            if (".tcl"@).is_suffix_of(s) {
                lemma_suffix_align(s, ".tcl"@, ".exe"@);
                assert((".tcl"@)[1] == (".exe"@).skip(0)[1]);
                assert(false);
            }
        }
    }
}

proof fn text_table_d_avoids_exe(s: Seq<char>)
    requires
        (".exe"@).is_suffix_of(s),
    ensures
        forall|i: int|
            0 <= i < text_suffixes_d().len() ==> !(#[trigger] text_suffixes_d()[i]).is_suffix_of(s),
{
    reveal_strlit(".exe");
    reveal_strlit(".ADA");
    reveal_strlit(".ADB");
    reveal_strlit(".ADS");
    reveal_strlit(".ASM");
    reveal_strlit(".adoc");
    reveal_strlit(".asc");
    reveal_strlit(".asciidoc");
    reveal_strlit(".cfg");
    reveal_strlit(".cnf");
    reveal_strlit(".conf");
    reveal_strlit(".css");
    reveal_strlit(".csv");
    reveal_strlit(".ebuild");
    reveal_strlit(".html");
    reveal_strlit(".ini");
    reveal_strlit(".log");
    reveal_strlit(".rst");
    reveal_strlit(".text");
    reveal_strlit(".tns");
    reveal_strlit(".ts");
    reveal_strlit(".tsv");
    reveal_strlit(".vbs");
    reveal_strlit(".xpl");
    reveal_strlit(".yaml");
    reveal_strlit(".yni");
    assert forall|i: int| 0 <= i < text_suffixes_d().len() implies !(#[trigger] text_suffixes_d()[i]).is_suffix_of(s) by {
        if i == 0 {
            assert(text_suffixes_d()[0] == ".tns"@);
            if (".tns"@).is_suffix_of(s) {
                lemma_suffix_align(s, ".tns"@, ".exe"@);
                assert((".tns"@)[1] == (".exe"@).skip(0)[1]);
                assert(false);
            }
        } else if i == 1 {
            assert(text_suffixes_d()[1] == ".ts"@);
            if (".ts"@).is_suffix_of(s) {
                lemma_suffix_align(s, ".ts"@, ".exe"@);
                assert((".ts"@)[0] == (".exe"@).skip(1)[0]);
                assert(false);
            }
        } else if i == 2 {
            assert(text_suffixes_d()[2] == ".vbs"@);
            if (".vbs"@).is_suffix_of(s) {
                lemma_suffix_align(s, ".vbs"@, ".exe"@);
                assert((".vbs"@)[1] == (".exe"@).skip(0)[1]);
                assert(false);
            }
        } else if i == 3 {
            assert(text_suffixes_d()[3] == ".xpl"@);
            if (".xpl"@).is_suffix_of(s) {
                lemma_suffix_align(s, ".xpl"@, ".exe"@);
                assert((".xpl"@)[1] == (".exe"@).skip(0)[1]);
                assert(false);
            }
        } else if i == 4 {
            assert(text_suffixes_d()[4] == ".ebuild"@);
            if (".ebuild"@).is_suffix_of(s) {
                lemma_suffix_align(s, ".exe"@, ".ebuild"@);
                assert((".exe"@)[0] == (".ebuild"@).skip(3)[0]);
                assert(false);
            }
        } else if i == 5 {
            assert(text_suffixes_d()[5] == ".csv"@);
            if (".csv"@).is_suffix_of(s) {
                lemma_suffix_align(s, ".csv"@, ".exe"@);
                assert((".csv"@)[1] == (".exe"@).skip(0)[1]);
                assert(false);
            }
        } else if i == 6 {
            assert(text_suffixes_d()[6] == ".html"@);
            if (".html"@).is_suffix_of(s) {
                lemma_suffix_align(s, ".exe"@, ".html"@);
                assert((".exe"@)[0] == (".html"@).skip(1)[0]);
                assert(false);
            }
        } else if i == 7 {
            assert(text_suffixes_d()[7] == ".css"@);
            if (".css"@).is_suffix_of(s) {
                lemma_suffix_align(s, ".css"@, ".exe"@);
                assert((".css"@)[1] == (".exe"@).skip(0)[1]);
                assert(false);
            }
        } else if i == 8 {
            assert(text_suffixes_d()[8] == ".ini"@);
            if (".ini"@).is_suffix_of(s) {
                lemma_suffix_align(s, ".ini"@, ".exe"@);
                assert((".ini"@)[1] == (".exe"@).skip(0)[1]);
                assert(false);
            }
        } else if i == 9 {
            assert(text_suffixes_d()[9] == ".tsv"@);
            if (".tsv"@).is_suffix_of(s) {
                lemma_suffix_align(s, ".tsv"@, ".exe"@);
                assert((".tsv"@)[1] == (".exe"@).skip(0)[1]);
                assert(false);
            }
        } else if i == 10 {
            assert(text_suffixes_d()[10] == ".yaml"@);
            if (".yaml"@).is_suffix_of(s) {
                lemma_suffix_align(s, ".exe"@, ".yaml"@);
                assert((".exe"@)[0] == (".yaml"@).skip(1)[0]);
                assert(false);
            }
        } else if i == 11 {
            assert(text_suffixes_d()[11] == ".rst"@);
            if (".rst"@).is_suffix_of(s) {
                lemma_suffix_align(s, ".rst"@, ".exe"@);
                assert((".rst"@)[1] == (".exe"@).skip(0)[1]);
                assert(false);
            }
        } else if i == 12 {
            assert(text_suffixes_d()[12] == ".adoc"@);
            if (".adoc"@).is_suffix_of(s) {
                lemma_suffix_align(s, ".exe"@, ".adoc"@);
                assert((".exe"@)[0] == (".adoc"@).skip(1)[0]);
                assert(false);
            }
        } else if i == 13 {
            assert(text_suffixes_d()[13] == ".asciidoc"@);
            if (".asciidoc"@).is_suffix_of(s) {
                lemma_suffix_align(s, ".exe"@, ".asciidoc"@);
                assert((".exe"@)[0] == (".asciidoc"@).skip(5)[0]);
                assert(false);
            }
        } else if i == 14 {
            assert(text_suffixes_d()[14] == ".yni"@);
            if (".yni"@).is_suffix_of(s) {
                lemma_suffix_align(s, ".yni"@, ".exe"@);
                assert((".yni"@)[1] == (".exe"@).skip(0)[1]);
                assert(false);
            }
        } else if i == 15 {
            assert(text_suffixes_d()[15] == ".cnf"@);
            if (".cnf"@).is_suffix_of(s) {
                lemma_suffix_align(s, ".cnf"@, ".exe"@);
                assert((".cnf"@)[1] == (".exe"@).skip(0)[1]);
                assert(false);
            }
        } else if i == 16 {
            assert(text_suffixes_d()[16] == ".conf"@);
            if (".conf"@).is_suffix_of(s) {
                lemma_suffix_align(s, ".exe"@, ".conf"@);
                assert((".exe"@)[0] == (".conf"@).skip(1)[0]);
                assert(false);
            }
        } else if i == 17 {
            assert(text_suffixes_d()[17] == ".cfg"@);
            if (".cfg"@).is_suffix_of(s) {
                lemma_suffix_align(s, ".cfg"@, ".exe"@);
                assert((".cfg"@)[1] == (".exe"@).skip(0)[1]);
                assert(false);
            }
        } else if i == 18 {
            assert(text_suffixes_d()[18] == ".log"@);
            if (".log"@).is_suffix_of(s) {
                lemma_suffix_align(s, ".log"@, ".exe"@);
                assert((".log"@)[1] == (".exe"@).skip(0)[1]);
                assert(false);
            }
        } else if i == 19 {
            assert(text_suffixes_d()[19] == ".asc"@);
            if (".asc"@).is_suffix_of(s) {
                lemma_suffix_align(s, ".asc"@, ".exe"@);
                assert((".asc"@)[1] == (".exe"@).skip(0)[1]);
                assert(false);
            }
        } else if i == 20 {
            assert(text_suffixes_d()[20] == ".text"@);
            if (".text"@).is_suffix_of(s) {
                lemma_suffix_align(s, ".exe"@, ".text"@);
                assert((".exe"@)[0] == (".text"@).skip(1)[0]);
                assert(false);
            }
        } else if i == 21 {
            assert(text_suffixes_d()[21] == ".ADA"@);
            if (".ADA"@).is_suffix_of(s) {
                lemma_suffix_align(s, ".ADA"@, ".exe"@);
                assert((".ADA"@)[1] == (".exe"@).skip(0)[1]);
                assert(false);
            }
        } else if i == 22 {
            assert(text_suffixes_d()[22] == ".ADB"@);
            if (".ADB"@).is_suffix_of(s) {
                lemma_suffix_align(s, ".ADB"@, ".exe"@);
                assert((".ADB"@)[1] == (".exe"@).skip(0)[1]);
                assert(false);
            }
        } else if i == 23 {
            assert(text_suffixes_d()[23] == ".ADS"@);
            if (".ADS"@).is_suffix_of(s) {
                lemma_suffix_align(s, ".ADS"@, ".exe"@);
                assert((".ADS"@)[1] == (".exe"@).skip(0)[1]);
                assert(false);
            }
        } else {
            assert(text_suffixes_d()[24] == ".ASM"@);
            if (".ASM"@).is_suffix_of(s) {
                lemma_suffix_align(s, ".ASM"@, ".exe"@);
                assert((".ASM"@)[1] == (".exe"@).skip(0)[1]);
                assert(false);
            }
        }
    }
}

proof fn text_table_e_avoids_exe(s: Seq<char>)
    requires
        (".exe"@).is_suffix_of(s),
    ensures
        forall|i: int|
            0 <= i < text_suffixes_e().len() ==> !(#[trigger] text_suffixes_e()[i]).is_suffix_of(s),
{
    reveal_strlit(".exe");
    reveal_strlit(".BAS");
    reveal_strlit(".BB");
    reveal_strlit(".BMX");
    reveal_strlit(".C");
    reveal_strlit(".CBL");
    reveal_strlit(".CBP");
    reveal_strlit(".CC");
    reveal_strlit(".CLJ");
    reveal_strlit(".CLS");
    reveal_strlit(".COB");
    reveal_strlit(".CPP");
    reveal_strlit(".CS");
    reveal_strlit(".CSPROJ");
    reveal_strlit(".CXX");
    reveal_strlit(".D");
    reveal_strlit(".DBA");
    reveal_strlit(".DBPro123");
    reveal_strlit(".E");
    reveal_strlit(".EFS");
    reveal_strlit(".EGT");
    reveal_strlit(".EL");
    reveal_strlit(".F");
    reveal_strlit(".FOR");
    reveal_strlit(".FTN");
    reveal_strlit(".S");
    assert forall|i: int| 0 <= i < text_suffixes_e().len() implies !(#[trigger] text_suffixes_e()[i]).is_suffix_of(s) by {
        if i == 0 {
            assert(text_suffixes_e()[0] == ".S"@);
            if (".S"@).is_suffix_of(s) {
                lemma_suffix_align(s, ".S"@, ".exe"@);
                assert((".S"@)[0] == (".exe"@).skip(2)[0]);
                assert(false);
            }
        } else if i == 1 {
            assert(text_suffixes_e()[1] == ".BAS"@);
            if (".BAS"@).is_suffix_of(s) {
                lemma_suffix_align(s, ".BAS"@, ".exe"@);
                assert((".BAS"@)[1] == (".exe"@).skip(0)[1]);
                assert(false);
            }
        } else if i == 2 {
            assert(text_suffixes_e()[2] == ".BB"@);
            if (".BB"@).is_suffix_of(s) {
                lemma_suffix_align(s, ".BB"@, ".exe"@);
                assert((".BB"@)[0] == (".exe"@).skip(1)[0]);
                assert(false);
            }
        } else if i == 3 {
            assert(text_suffixes_e()[3] == ".BMX"@);
            if (".BMX"@).is_suffix_of(s) {
                lemma_suffix_align(s, ".BMX"@, ".exe"@);
                assert((".BMX"@)[1] == (".exe"@).skip(0)[1]);
                assert(false);
            }
        } else if i == 4 {
            assert(text_suffixes_e()[4] == ".C"@);
            if (".C"@).is_suffix_of(s) {
                lemma_suffix_align(s, ".C"@, ".exe"@);
                assert((".C"@)[0] == (".exe"@).skip(2)[0]);
                assert(false);
            }
        } else if i == 5 {
            assert(text_suffixes_e()[5] == ".CLJ"@);
            if (".CLJ"@).is_suffix_of(s) {
                lemma_suffix_align(s, ".CLJ"@, ".exe"@);
                assert((".CLJ"@)[1] == (".exe"@).skip(0)[1]);
                assert(false);
            }
        } else if i == 6 {
            assert(text_suffixes_e()[6] == ".CLS"@);
            if (".CLS"@).is_suffix_of(s) {
                lemma_suffix_align(s, ".CLS"@, ".exe"@);
                assert((".CLS"@)[1] == (".exe"@).skip(0)[1]);
                assert(false);
            }
        } else if i == 7 {
            assert(text_suffixes_e()[7] == ".COB"@);
            if (".COB"@).is_suffix_of(s) {
                lemma_suffix_align(s, ".COB"@, ".exe"@);
                assert((".COB"@)[1] == (".exe"@).skip(0)[1]);
                assert(false);
            }
        } else if i == 8 {
            assert(text_suffixes_e()[8] == ".CBL"@);
            if (".CBL"@).is_suffix_of(s) {
                lemma_suffix_align(s, ".CBL"@, ".exe"@);
                assert((".CBL"@)[1] == (".exe"@).skip(0)[1]);
                assert(false);
            }
        } else if i == 9 {
            assert(text_suffixes_e()[9] == ".CPP"@);
            if (".CPP"@).is_suffix_of(s) {
                lemma_suffix_align(s, ".CPP"@, ".exe"@);
                assert((".CPP"@)[1] == (".exe"@).skip(0)[1]);
                assert(false);
            }
        } else if i == 10 {
            assert(text_suffixes_e()[10] == ".CC"@);
            if (".CC"@).is_suffix_of(s) {
                lemma_suffix_align(s, ".CC"@, ".exe"@);
                assert((".CC"@)[0] == (".exe"@).skip(1)[0]);
                assert(false);
            }
        } else if i == 11 {
            assert(text_suffixes_e()[11] == ".CXX"@);
            if (".CXX"@).is_suffix_of(s) {
                lemma_suffix_align(s, ".CXX"@, ".exe"@);
                assert((".CXX"@)[1] == (".exe"@).skip(0)[1]);
                assert(false);
            }
        } else if i == 12 {
            assert(text_suffixes_e()[12] == ".CBP"@);
            if (".CBP"@).is_suffix_of(s) {
                lemma_suffix_align(s, ".CBP"@, ".exe"@);
                assert((".CBP"@)[1] == (".exe"@).skip(0)[1]);
                assert(false);
            }
        } else if i == 13 {
            assert(text_suffixes_e()[13] == ".CS"@);
            if (".CS"@).is_suffix_of(s) {
                lemma_suffix_align(s, ".CS"@, ".exe"@);
                assert((".CS"@)[0] == (".exe"@).skip(1)[0]);
                assert(false);
            }
        } else if i == 14 {
            assert(text_suffixes_e()[14] == ".CSPROJ"@);
            if (".CSPROJ"@).is_suffix_of(s) {
                lemma_suffix_align(s, ".exe"@, ".CSPROJ"@);
                assert((".exe"@)[0] == (".CSPROJ"@).skip(3)[0]);
                assert(false);
            }
        } else if i == 15 {
            assert(text_suffixes_e()[15] == ".D"@);
            if (".D"@).is_suffix_of(s) {
                lemma_suffix_align(s, ".D"@, ".exe"@);
                assert((".D"@)[0] == (".exe"@).skip(2)[0]);
                assert(false);
            }
        } else if i == 16 {
            assert(text_suffixes_e()[16] == ".DBA"@);
            if (".DBA"@).is_suffix_of(s) {
                lemma_suffix_align(s, ".DBA"@, ".exe"@);
                assert((".DBA"@)[1] == (".exe"@).skip(0)[1]);
                assert(false);
            }
        } else if i == 17 {
            assert(text_suffixes_e()[17] == ".DBPro123"@);
            if (".DBPro123"@).is_suffix_of(s) {
                lemma_suffix_align(s, ".exe"@, ".DBPro123"@);
                assert((".exe"@)[0] == (".DBPro123"@).skip(5)[0]);
                assert(false);
            }
        } else if i == 18 {
            assert(text_suffixes_e()[18] == ".E"@);
            if (".E"@).is_suffix_of(s) {
                lemma_suffix_align(s, ".E"@, ".exe"@);
                assert((".E"@)[0] == (".exe"@).skip(2)[0]);
                assert(false);
            }
        } else if i == 19 {
            assert(text_suffixes_e()[19] == ".EFS"@);
            if (".EFS"@).is_suffix_of(s) {
                lemma_suffix_align(s, ".EFS"@, ".exe"@);
                assert((".EFS"@)[1] == (".exe"@).skip(0)[1]);
                assert(false);
            }
        } else if i == 20 {
            assert(text_suffixes_e()[20] == ".EGT"@);
            if (".EGT"@).is_suffix_of(s) {
                lemma_suffix_align(s, ".EGT"@, ".exe"@);
                assert((".EGT"@)[1] == (".exe"@).skip(0)[1]);
                assert(false);
            }
        } else if i == 21 {
            assert(text_suffixes_e()[21] == ".EL"@);
            if (".EL"@).is_suffix_of(s) {
                lemma_suffix_align(s, ".EL"@, ".exe"@);
                assert((".EL"@)[0] == (".exe"@).skip(1)[0]);
                assert(false);
            }
        } else if i == 22 {
            assert(text_suffixes_e()[22] == ".FOR"@);
            if (".FOR"@).is_suffix_of(s) {
                lemma_suffix_align(s, ".FOR"@, ".exe"@);
                assert((".FOR"@)[1] == (".exe"@).skip(0)[1]);
                assert(false);
            }
        } else if i == 23 {
            assert(text_suffixes_e()[23] == ".FTN"@);
            if (".FTN"@).is_suffix_of(s) {
                lemma_suffix_align(s, ".FTN"@, ".exe"@);
                assert((".FTN"@)[1] == (".exe"@).skip(0)[1]);
                assert(false);
            }
        } else {
            assert(text_suffixes_e()[24] == ".F"@);
            if (".F"@).is_suffix_of(s) {
                lemma_suffix_align(s, ".F"@, ".exe"@);
                assert((".F"@)[0] == (".exe"@).skip(2)[0]);
                assert(false);
            }
        }
    }
}

proof fn text_table_f_avoids_exe(s: Seq<char>)
    requires
        (".exe"@).is_suffix_of(s),
    ensures
        forall|i: int|
            0 <= i < text_suffixes_f().len() ==> !(#[trigger] text_suffixes_f()[i]).is_suffix_of(s),
{
    reveal_strlit(".exe");
    reveal_strlit(".F77");
    reveal_strlit(".F90");
    reveal_strlit(".FRM");
    reveal_strlit(".FRX");
    reveal_strlit(".FTH");
    reveal_strlit(".GED");
    reveal_strlit(".GM6");
    reveal_strlit(".GMD");
    reveal_strlit(".GMK");
    reveal_strlit(".GML");
    reveal_strlit(".GO");
    reveal_strlit(".H");
    reveal_strlit(".HPP");
    reveal_strlit(".HS");
    reveal_strlit(".HX");
    reveal_strlit(".HXX");
    reveal_strlit(".I");
    reveal_strlit(".INC");
    reveal_strlit(".JAVA");
    reveal_strlit(".JS");
    reveal_strlit(".L");
    reveal_strlit(".LGT");
    reveal_strlit(".LISP");
    reveal_strlit(".M");
    reveal_strlit(".M4");
    assert forall|i: int| 0 <= i < text_suffixes_f().len() implies !(#[trigger] text_suffixes_f()[i]).is_suffix_of(s) by {
        if i == 0 {
            assert(text_suffixes_f()[0] == ".F77"@);
            if (".F77"@).is_suffix_of(s) {
                lemma_suffix_align(s, ".F77"@, ".exe"@);
                assert((".F77"@)[1] == (".exe"@).skip(0)[1]);
                assert(false);
            }
        } else if i == 1 {
            assert(text_suffixes_f()[1] == ".F90"@);
            if (".F90"@).is_suffix_of(s) {
                lemma_suffix_align(s, ".F90"@, ".exe"@);
                assert((".F90"@)[1] == (".exe"@).skip(0)[1]);
                assert(false);
            }
        } else if i == 2 {
            assert(text_suffixes_f()[2] == ".FRM"@);
            if (".FRM"@).is_suffix_of(s) {
                lemma_suffix_align(s, ".FRM"@, ".exe"@);
                assert((".FRM"@)[1] == (".exe"@).skip(0)[1]);
                assert(false);
            }
        } else if i == 3 {
            assert(text_suffixes_f()[3] == ".FRX"@);
            if (".FRX"@).is_suffix_of(s) {
                lemma_suffix_align(s, ".FRX"@, ".exe"@);
                assert((".FRX"@)[1] == (".exe"@).skip(0)[1]);
                assert(false);
            }
        } else if i == 4 {
            assert(text_suffixes_f()[4] == ".FTH"@);
            if (".FTH"@).is_suffix_of(s) {
                lemma_suffix_align(s, ".FTH"@, ".exe"@);
                assert((".FTH"@)[1] == (".exe"@).skip(0)[1]);
                assert(false);
            }
        } else if i == 5 {
            assert(text_suffixes_f()[5] == ".GED"@);
            if (".GED"@).is_suffix_of(s) {
                lemma_suffix_align(s, ".GED"@, ".exe"@);
                assert((".GED"@)[1] == (".exe"@).skip(0)[1]);
                assert(false);
            }
        } else if i == 6 {
            assert(text_suffixes_f()[6] == ".GM6"@);
            if (".GM6"@).is_suffix_of(s) {
                lemma_suffix_align(s, ".GM6"@, ".exe"@);
                assert((".GM6"@)[1] == (".exe"@).skip(0)[1]);
                assert(false);
            }
        } else if i == 7 {
            assert(text_suffixes_f()[7] == ".GMD"@);
            if (".GMD"@).is_suffix_of(s) {
                lemma_suffix_align(s, ".GMD"@, ".exe"@);
                assert((".GMD"@)[1] == (".exe"@).skip(0)[1]);
                assert(false);
            }
        } else if i == 8 {
            assert(text_suffixes_f()[8] == ".GMK"@);
            if (".GMK"@).is_suffix_of(s) {
                lemma_suffix_align(s, ".GMK"@, ".exe"@);
                assert((".GMK"@)[1] == (".exe"@).skip(0)[1]);
                assert(false);
            }
        } else if i == 9 {
            assert(text_suffixes_f()[9] == ".GML"@);
            if (".GML"@).is_suffix_of(s) {
                lemma_suffix_align(s, ".GML"@, ".exe"@);
                assert((".GML"@)[1] == (".exe"@).skip(0)[1]);
                assert(false);
            }
        } else if i == 10 {
            assert(text_suffixes_f()[10] == ".GO"@);
            if (".GO"@).is_suffix_of(s) {
                lemma_suffix_align(s, ".GO"@, ".exe"@);
                assert((".GO"@)[0] == (".exe"@).skip(1)[0]);
                assert(false);
            }
        } else if i == 11 {
            assert(text_suffixes_f()[11] == ".H"@);
            if (".H"@).is_suffix_of(s) {
                lemma_suffix_align(s, ".H"@, ".exe"@);
                assert((".H"@)[0] == (".exe"@).skip(2)[0]);
                assert(false);
            }
        } else if i == 12 {
            assert(text_suffixes_f()[12] == ".HPP"@);
            if (".HPP"@).is_suffix_of(s) {
                lemma_suffix_align(s, ".HPP"@, ".exe"@);
                assert((".HPP"@)[1] == (".exe"@).skip(0)[1]);
                assert(false);
            }
        } else if i == 13 {
            assert(text_suffixes_f()[13] == ".HXX"@);
            if (".HXX"@).is_suffix_of(s) {
                lemma_suffix_align(s, ".HXX"@, ".exe"@);
                assert((".HXX"@)[1] == (".exe"@).skip(0)[1]);
                assert(false);
            }
        } else if i == 14 {
            assert(text_suffixes_f()[14] == ".HS"@);
            if (".HS"@).is_suffix_of(s) {
                lemma_suffix_align(s, ".HS"@, ".exe"@);
                assert((".HS"@)[0] == (".exe"@).skip(1)[0]);
                assert(false);
            }
        } else if i == 15 {
            assert(text_suffixes_f()[15] == ".HX"@);
            if (".HX"@).is_suffix_of(s) {
                lemma_suffix_align(s, ".HX"@, ".exe"@);
                assert((".HX"@)[0] == (".exe"@).skip(1)[0]);
                assert(false);
            }
        } else if i == 16 {
            assert(text_suffixes_f()[16] == ".I"@);
            if (".I"@).is_suffix_of(s) {
                lemma_suffix_align(s, ".I"@, ".exe"@);
                assert((".I"@)[0] == (".exe"@).skip(2)[0]);
                assert(false);
            }
        } else if i == 17 {
            assert(text_suffixes_f()[17] == ".INC"@);
            if (".INC"@).is_suffix_of(s) {
                lemma_suffix_align(s, ".INC"@, ".exe"@);
                assert((".INC"@)[1] == (".exe"@).skip(0)[1]);
                assert(false);
            }
        } else if i == 18 {
            assert(text_suffixes_f()[18] == ".JAVA"@);
            if (".JAVA"@).is_suffix_of(s) {
                lemma_suffix_align(s, ".exe"@, ".JAVA"@);
                assert((".exe"@)[0] == (".JAVA"@).skip(1)[0]);
                assert(false);
            }
        } else if i == 19 {
            assert(text_suffixes_f()[19] == ".JS"@);
            if (".JS"@).is_suffix_of(s) {
                lemma_suffix_align(s, ".JS"@, ".exe"@);
                assert((".JS"@)[0] == (".exe"@).skip(1)[0]);
                assert(false);
            }
        } else if i == 20 {
            assert(text_suffixes_f()[20] == ".L"@);
            if (".L"@).is_suffix_of(s) {
                lemma_suffix_align(s, ".L"@, ".exe"@);
                assert((".L"@)[0] == (".exe"@).skip(2)[0]);
                assert(false);
            }
        } else if i == 21 {
            assert(text_suffixes_f()[21] == ".LGT"@);
            if (".LGT"@).is_suffix_of(s) {
                lemma_suffix_align(s, ".LGT"@, ".exe"@);
                assert((".LGT"@)[1] == (".exe"@).skip(0)[1]);
                assert(false);
            }
        } else if i == 22 {
            assert(text_suffixes_f()[22] == ".LISP"@);
            if (".LISP"@).is_suffix_of(s) {
                lemma_suffix_align(s, ".exe"@, ".LISP"@);
                assert((".exe"@)[0] == (".LISP"@).skip(1)[0]);
                assert(false);
            }
        } else if i == 23 {
            assert(text_suffixes_f()[23] == ".M"@);
            if (".M"@).is_suffix_of(s) {
                lemma_suffix_align(s, ".M"@, ".exe"@);
                assert((".M"@)[0] == (".exe"@).skip(2)[0]);
                assert(false);
            }
        } else {
            assert(text_suffixes_f()[24] == ".M4"@);
            if (".M4"@).is_suffix_of(s) {
                lemma_suffix_align(s, ".M4"@, ".exe"@);
                assert((".M4"@)[0] == (".exe"@).skip(1)[0]);
                assert(false);
            }
        }
    }
}

proof fn text_table_g_avoids_exe(s: Seq<char>)
    requires
        (".exe"@).is_suffix_of(s),
    ensures
        forall|i: int|
            0 <= i < text_suffixes_g().len() ==> !(#[trigger] text_suffixes_g()[i]).is_suffix_of(s),
{
    reveal_strlit(".exe");
    reveal_strlit(".ML");
    reveal_strlit(".MSQR");
    reveal_strlit(".N");
    reveal_strlit(".NB");
    reveal_strlit(".P");
    reveal_strlit(".PAS");
    reveal_strlit(".PHP");
    reveal_strlit(".PHP3");
    reveal_strlit(".PHP4");
    reveal_strlit(".PHP5");
    reveal_strlit(".PHPS");
    reveal_strlit(".PIV");
    reveal_strlit(".PL");
    reveal_strlit(".PL1");
    reveal_strlit(".PLI");
    reveal_strlit(".PM");
    reveal_strlit(".POL");
    reveal_strlit(".PP");
    reveal_strlit(".PRG");
    reveal_strlit(".PRO");
    reveal_strlit(".PY");
    reveal_strlit(".Phtml");
    reveal_strlit(".R");
    reveal_strlit(".raku");
    reveal_strlit(".rakumod");
    assert forall|i: int| 0 <= i < text_suffixes_g().len() implies !(#[trigger] text_suffixes_g()[i]).is_suffix_of(s) by {
        if i == 0 {
            assert(text_suffixes_g()[0] == ".ML"@);
            if (".ML"@).is_suffix_of(s) {
                lemma_suffix_align(s, ".ML"@, ".exe"@);
                assert((".ML"@)[0] == (".exe"@).skip(1)[0]);
                assert(false);
            }
        } else if i == 1 {
            assert(text_suffixes_g()[1] == ".MSQR"@);
            if (".MSQR"@).is_suffix_of(s) {
                lemma_suffix_align(s, ".exe"@, ".MSQR"@);
                assert((".exe"@)[0] == (".MSQR"@).skip(1)[0]);
                assert(false);
            }
        } else if i == 2 {
            assert(text_suffixes_g()[2] == ".N"@);
            if (".N"@).is_suffix_of(s) {
                lemma_suffix_align(s, ".N"@, ".exe"@);
                assert((".N"@)[0] == (".exe"@).skip(2)[0]);
                assert(false);
            }
        } else if i == 3 {
            assert(text_suffixes_g()[3] == ".NB"@);
            if (".NB"@).is_suffix_of(s) {
                lemma_suffix_align(s, ".NB"@, ".exe"@);
                assert((".NB"@)[0] == (".exe"@).skip(1)[0]);
                assert(false);
            }
        } else if i == 4 {
            assert(text_suffixes_g()[4] == ".P"@);
            if (".P"@).is_suffix_of(s) {
                lemma_suffix_align(s, ".P"@, ".exe"@);
                assert((".P"@)[0] == (".exe"@).skip(2)[0]);
                assert(false);
            }
        } else if i == 5 {
            assert(text_suffixes_g()[5] == ".PAS"@);
            if (".PAS"@).is_suffix_of(s) {
                lemma_suffix_align(s, ".PAS"@, ".exe"@);
                assert((".PAS"@)[1] == (".exe"@).skip(0)[1]);
                assert(false);
            }
        } else if i == 6 {
            assert(text_suffixes_g()[6] == ".PP"@);
            if (".PP"@).is_suffix_of(s) {
                lemma_suffix_align(s, ".PP"@, ".exe"@);
                assert((".PP"@)[0] == (".exe"@).skip(1)[0]);
                assert(false);
            }
        } else if i == 7 {
            assert(text_suffixes_g()[7] == ".PHP"@);
            if (".PHP"@).is_suffix_of(s) {
                lemma_suffix_align(s, ".PHP"@, ".exe"@);
                assert((".PHP"@)[1] == (".exe"@).skip(0)[1]);
                assert(false);
            }
        } else if i == 8 {
            assert(text_suffixes_g()[8] == ".PHP3"@);
            if (".PHP3"@).is_suffix_of(s) {
                lemma_suffix_align(s, ".exe"@, ".PHP3"@);
                assert((".exe"@)[0] == (".PHP3"@).skip(1)[0]);
                assert(false);
            }
        } else if i == 9 {
            assert(text_suffixes_g()[9] == ".PHP4"@);
            if (".PHP4"@).is_suffix_of(s) {
                lemma_suffix_align(s, ".exe"@, ".PHP4"@);
                assert((".exe"@)[0] == (".PHP4"@).skip(1)[0]);
                assert(false);
            }
        } else if i == 10 {
            assert(text_suffixes_g()[10] == ".PHP5"@);
            if (".PHP5"@).is_suffix_of(s) {
                lemma_suffix_align(s, ".exe"@, ".PHP5"@);
                assert((".exe"@)[0] == (".PHP5"@).skip(1)[0]);
                assert(false);
            }
        } else if i == 11 {
            assert(text_suffixes_g()[11] == ".PHPS"@);
            if (".PHPS"@).is_suffix_of(s) {
                lemma_suffix_align(s, ".exe"@, ".PHPS"@);
                assert((".exe"@)[0] == (".PHPS"@).skip(1)[0]);
                assert(false);
            }
        } else if i == 12 {
            assert(text_suffixes_g()[12] == ".Phtml"@);
            if (".Phtml"@).is_suffix_of(s) {
                lemma_suffix_align(s, ".exe"@, ".Phtml"@);
                assert((".exe"@)[0] == (".Phtml"@).skip(2)[0]);
                assert(false);
            }
        } else if i == 13 {
            assert(text_suffixes_g()[13] == ".PIV"@);
            if (".PIV"@).is_suffix_of(s) {
                lemma_suffix_align(s, ".PIV"@, ".exe"@);
                assert((".PIV"@)[1] == (".exe"@).skip(0)[1]);
                assert(false);
            }
        } else if i == 14 {
            assert(text_suffixes_g()[14] == ".PL"@);
            if (".PL"@).is_suffix_of(s) {
                lemma_suffix_align(s, ".PL"@, ".exe"@);
                assert((".PL"@)[0] == (".exe"@).skip(1)[0]);
                assert(false);
            }
        } else if i == 15 {
            assert(text_suffixes_g()[15] == ".PM"@);
            if (".PM"@).is_suffix_of(s) {
                lemma_suffix_align(s, ".PM"@, ".exe"@);
                assert((".PM"@)[0] == (".exe"@).skip(1)[0]);
                assert(false);
            }
        } else if i == 16 {
            assert(text_suffixes_g()[16] == ".PLI"@);
            if (".PLI"@).is_suffix_of(s) {
                lemma_suffix_align(s, ".PLI"@, ".exe"@);
                assert((".PLI"@)[1] == (".exe"@).skip(0)[1]);
                assert(false);
            }
        } else if i == 17 {
            assert(text_suffixes_g()[17] == ".PL1"@);
            if (".PL1"@).is_suffix_of(s) {
                lemma_suffix_align(s, ".PL1"@, ".exe"@);
                assert((".PL1"@)[1] == (".exe"@).skip(0)[1]);
                assert(false);
            }
        } else if i == 18 {
            assert(text_suffixes_g()[18] == ".PRG"@);
            if (".PRG"@).is_suffix_of(s) {
                lemma_suffix_align(s, ".PRG"@, ".exe"@);
                assert((".PRG"@)[1] == (".exe"@).skip(0)[1]);
                assert(false);
            }
        } else if i == 19 {
            assert(text_suffixes_g()[19] == ".PRO"@);
            if (".PRO"@).is_suffix_of(s) {
                lemma_suffix_align(s, ".PRO"@, ".exe"@);
                assert((".PRO"@)[1] == (".exe"@).skip(0)[1]);
                assert(false);
            }
        } else if i == 20 {
            assert(text_suffixes_g()[20] == ".POL"@);
            if (".POL"@).is_suffix_of(s) {
                lemma_suffix_align(s, ".POL"@, ".exe"@);
                assert((".POL"@)[1] == (".exe"@).skip(0)[1]);
                assert(false);
            }
        } else if i == 21 {
            assert(text_suffixes_g()[21] == ".PY"@);
            if (".PY"@).is_suffix_of(s) {
                lemma_suffix_align(s, ".PY"@, ".exe"@);
                assert((".PY"@)[0] == (".exe"@).skip(1)[0]);
                assert(false);
            }
        } else if i == 22 {
            assert(text_suffixes_g()[22] == ".R"@);
            if (".R"@).is_suffix_of(s) {
                lemma_suffix_align(s, ".R"@, ".exe"@);
                assert((".R"@)[0] == (".exe"@).skip(2)[0]);
                assert(false);
            }
        } else if i == 23 {
            assert(text_suffixes_g()[23] == ".raku"@);
            if (".raku"@).is_suffix_of(s) {
                lemma_suffix_align(s, ".exe"@, ".raku"@);
                assert((".exe"@)[0] == (".raku"@).skip(1)[0]);
                assert(false);
            }
        } else {
            assert(text_suffixes_g()[24] == ".rakumod"@);
            if (".rakumod"@).is_suffix_of(s) {
                lemma_suffix_align(s, ".exe"@, ".rakumod"@);
                assert((".exe"@)[0] == (".rakumod"@).skip(4)[0]);
                assert(false);
            }
        }
    }
}

proof fn text_table_h_avoids_exe(s: Seq<char>)
    requires
        (".exe"@).is_suffix_of(s),
    ensures
        forall|i: int|
            0 <= i < text_suffixes_h().len() ==> !(#[trigger] text_suffixes_h()[i]).is_suffix_of(s),
{
    reveal_strlit(".exe");
    reveal_strlit(".RB");
    reveal_strlit(".RC");
    reveal_strlit(".RC2");
    reveal_strlit(".RED");
    reveal_strlit(".REDS");
    reveal_strlit(".RESX");
    reveal_strlit(".RKT");
    reveal_strlit(".RKTL");
    reveal_strlit(".RS");
    reveal_strlit(".SCALA");
    reveal_strlit(".SCE");
    reveal_strlit(".SCI");
    reveal_strlit(".SCM");
    reveal_strlit(".SD7");
    reveal_strlit(".SKB");
    reveal_strlit(".SKC");
    reveal_strlit(".SKD");
    reveal_strlit(".SKF");
    reveal_strlit(".SKG");
    reveal_strlit(".SKI");
    reveal_strlit(".SKK");
    reveal_strlit(".SKM");
    reveal_strlit(".nqp");
    reveal_strlit(".rakudoc");
    reveal_strlit(".rakutest");
    assert forall|i: int| 0 <= i < text_suffixes_h().len() implies !(#[trigger] text_suffixes_h()[i]).is_suffix_of(s) by {
        if i == 0 {
            assert(text_suffixes_h()[0] == ".rakudoc"@);
            if (".rakudoc"@).is_suffix_of(s) {
                lemma_suffix_align(s, ".exe"@, ".rakudoc"@);
                assert((".exe"@)[0] == (".rakudoc"@).skip(4)[0]);
                assert(false);
            }
        } else if i == 1 {
            assert(text_suffixes_h()[1] == ".rakutest"@);
            if (".rakutest"@).is_suffix_of(s) {
                lemma_suffix_align(s, ".exe"@, ".rakutest"@);
                assert((".exe"@)[0] == (".rakutest"@).skip(5)[0]);
                assert(false);
            }
        } else if i == 2 {
            assert(text_suffixes_h()[2] == ".nqp"@);
            if (".nqp"@).is_suffix_of(s) {
                lemma_suffix_align(s, ".nqp"@, ".exe"@);
                assert((".nqp"@)[1] == (".exe"@).skip(0)[1]);
                assert(false);
            }
        } else if i == 3 {
            assert(text_suffixes_h()[3] == ".RED"@);
            if (".RED"@).is_suffix_of(s) {
                lemma_suffix_align(s, ".RED"@, ".exe"@);
                assert((".RED"@)[1] == (".exe"@).skip(0)[1]);
                assert(false);
            }
        } else if i == 4 {
            assert(text_suffixes_h()[4] == ".REDS"@);
            if (".REDS"@).is_suffix_of(s) {
                lemma_suffix_align(s, ".exe"@, ".REDS"@);
                assert((".exe"@)[0] == (".REDS"@).skip(1)[0]);
                assert(false);
            }
        } else if i == 5 {
            assert(text_suffixes_h()[5] == ".RB"@);
            if (".RB"@).is_suffix_of(s) {
                lemma_suffix_align(s, ".RB"@, ".exe"@);
                assert((".RB"@)[0] == (".exe"@).skip(1)[0]);
                assert(false);
            }
        } else if i == 6 {
            assert(text_suffixes_h()[6] == ".RESX"@);
            if (".RESX"@).is_suffix_of(s) {
                lemma_suffix_align(s, ".exe"@, ".RESX"@);
                assert((".exe"@)[0] == (".RESX"@).skip(1)[0]);
                assert(false);
            }
        } else if i == 7 {
            assert(text_suffixes_h()[7] == ".RC"@);
            if (".RC"@).is_suffix_of(s) {
                lemma_suffix_align(s, ".RC"@, ".exe"@);
                assert((".RC"@)[0] == (".exe"@).skip(1)[0]);
                assert(false);
            }
        } else if i == 8 {
            assert(text_suffixes_h()[8] == ".RC2"@);
            if (".RC2"@).is_suffix_of(s) {
                lemma_suffix_align(s, ".RC2"@, ".exe"@);
                assert((".RC2"@)[1] == (".exe"@).skip(0)[1]);
                assert(false);
            }
        } else if i == 9 {
            assert(text_suffixes_h()[9] == ".RKT"@);
            if (".RKT"@).is_suffix_of(s) {
                lemma_suffix_align(s, ".RKT"@, ".exe"@);
                assert((".RKT"@)[1] == (".exe"@).skip(0)[1]);
                assert(false);
            }
        } else if i == 10 {
            assert(text_suffixes_h()[10] == ".RKTL"@);
            if (".RKTL"@).is_suffix_of(s) {
                lemma_suffix_align(s, ".exe"@, ".RKTL"@);
                assert((".exe"@)[0] == (".RKTL"@).skip(1)[0]);
                assert(false);
            }
        } else if i == 11 {
            assert(text_suffixes_h()[11] == ".RS"@);
            if (".RS"@).is_suffix_of(s) {
                lemma_suffix_align(s, ".RS"@, ".exe"@);
                assert((".RS"@)[0] == (".exe"@).skip(1)[0]);
                assert(false);
            }
        } else if i == 12 {
            assert(text_suffixes_h()[12] == ".SCALA"@);
            if (".SCALA"@).is_suffix_of(s) {
                lemma_suffix_align(s, ".exe"@, ".SCALA"@);
                assert((".exe"@)[0] == (".SCALA"@).skip(2)[0]);
                assert(false);
            }
        } else if i == 13 {
            assert(text_suffixes_h()[13] == ".SCI"@);
            if (".SCI"@).is_suffix_of(s) {
                lemma_suffix_align(s, ".SCI"@, ".exe"@);
                assert((".SCI"@)[1] == (".exe"@).skip(0)[1]);
                assert(false);
            }
        } else if i == 14 {
            assert(text_suffixes_h()[14] == ".SCE"@);
            if (".SCE"@).is_suffix_of(s) {
                lemma_suffix_align(s, ".SCE"@, ".exe"@);
                assert((".SCE"@)[1] == (".exe"@).skip(0)[1]);
                assert(false);
            }
        } else if i == 15 {
            assert(text_suffixes_h()[15] == ".SCM"@);
            if (".SCM"@).is_suffix_of(s) {
                lemma_suffix_align(s, ".SCM"@, ".exe"@);
                assert((".SCM"@)[1] == (".exe"@).skip(0)[1]);
                assert(false);
            }
        } else if i == 16 {
            assert(text_suffixes_h()[16] == ".SD7"@);
            if (".SD7"@).is_suffix_of(s) {
                lemma_suffix_align(s, ".SD7"@, ".exe"@);
                assert((".SD7"@)[1] == (".exe"@).skip(0)[1]);
                assert(false);
            }
        } else if i == 17 {
            assert(text_suffixes_h()[17] == ".SKB"@);
            if (".SKB"@).is_suffix_of(s) {
                lemma_suffix_align(s, ".SKB"@, ".exe"@);
                assert((".SKB"@)[1] == (".exe"@).skip(0)[1]);
                assert(false);
            }
        } else if i == 18 {
            assert(text_suffixes_h()[18] == ".SKC"@);
            if (".SKC"@).is_suffix_of(s) {
                lemma_suffix_align(s, ".SKC"@, ".exe"@);
                assert((".SKC"@)[1] == (".exe"@).skip(0)[1]);
                assert(false);
            }
        } else if i == 19 {
            assert(text_suffixes_h()[19] == ".SKD"@);
            if (".SKD"@).is_suffix_of(s) {
                lemma_suffix_align(s, ".SKD"@, ".exe"@);
                assert((".SKD"@)[1] == (".exe"@).skip(0)[1]);
                assert(false);
            }
        } else if i == 20 {
            assert(text_suffixes_h()[20] == ".SKF"@);
            if (".SKF"@).is_suffix_of(s) {
                lemma_suffix_align(s, ".SKF"@, ".exe"@);
                assert((".SKF"@)[1] == (".exe"@).skip(0)[1]);
                assert(false);
            }
        } else if i == 21 {
            assert(text_suffixes_h()[21] == ".SKG"@);
            if (".SKG"@).is_suffix_of(s) {
                lemma_suffix_align(s, ".SKG"@, ".exe"@);
                assert((".SKG"@)[1] == (".exe"@).skip(0)[1]);
                assert(false);
            }
        } else if i == 22 {
            assert(text_suffixes_h()[22] == ".SKI"@);
            if (".SKI"@).is_suffix_of(s) {
                lemma_suffix_align(s, ".SKI"@, ".exe"@);
                assert((".SKI"@)[1] == (".exe"@).skip(0)[1]);
                assert(false);
            }
        } else if i == 23 {
            assert(text_suffixes_h()[23] == ".SKK"@);
            if (".SKK"@).is_suffix_of(s) {
                lemma_suffix_align(s, ".SKK"@, ".exe"@);
                assert((".SKK"@)[1] == (".exe"@).skip(0)[1]);
                assert(false);
            }
        } else {
            assert(text_suffixes_h()[24] == ".SKM"@);
            if (".SKM"@).is_suffix_of(s) {
                lemma_suffix_align(s, ".SKM"@, ".exe"@);
                assert((".SKM"@)[1] == (".exe"@).skip(0)[1]);
                assert(false);
            }
        }
    }
}

proof fn text_table_i_avoids_exe(s: Seq<char>)
    requires
        (".exe"@).is_suffix_of(s),
    ensures
        forall|i: int|
            0 <= i < text_suffixes_i().len() ==> !(#[trigger] text_suffixes_i()[i]).is_suffix_of(s),
{
    reveal_strlit(".exe");
    reveal_strlit(".SKO");
    reveal_strlit(".SKP");
    reveal_strlit(".SKQ");
    reveal_strlit(".SKS");
    reveal_strlit(".SKT");
    reveal_strlit(".SKZ");
    reveal_strlit(".SLN");
    reveal_strlit(".SPIN");
    reveal_strlit(".STK");
    reveal_strlit(".SWG");
    reveal_strlit(".TCL");
    reveal_strlit(".VAP");
    reveal_strlit(".VB");
    reveal_strlit(".VBG");
    reveal_strlit(".VBP");
    reveal_strlit(".VBPROJ");
    reveal_strlit(".VCPROJ");
    reveal_strlit(".VDPROJ");
    reveal_strlit(".VIP");
    reveal_strlit(".XPL");
    reveal_strlit(".XQ");
    reveal_strlit(".XSL");
    reveal_strlit(".Y");
    assert forall|i: int| 0 <= i < text_suffixes_i().len() implies !(#[trigger] text_suffixes_i()[i]).is_suffix_of(s) by {
        if i == 0 {
            assert(text_suffixes_i()[0] == ".SKO"@);
            if (".SKO"@).is_suffix_of(s) {
                lemma_suffix_align(s, ".SKO"@, ".exe"@);
                assert((".SKO"@)[1] == (".exe"@).skip(0)[1]);
                assert(false);
            }
        } else if i == 1 {
            assert(text_suffixes_i()[1] == ".SKP"@);
            if (".SKP"@).is_suffix_of(s) {
                lemma_suffix_align(s, ".SKP"@, ".exe"@);
                assert((".SKP"@)[1] == (".exe"@).skip(0)[1]);
                assert(false);
            }
        } else if i == 2 {
            assert(text_suffixes_i()[2] == ".SKQ"@);
            if (".SKQ"@).is_suffix_of(s) {
                lemma_suffix_align(s, ".SKQ"@, ".exe"@);
                assert((".SKQ"@)[1] == (".exe"@).skip(0)[1]);
                assert(false);
            }
        } else if i == 3 {
            assert(text_suffixes_i()[3] == ".SKS"@);
            if (".SKS"@).is_suffix_of(s) {
                lemma_suffix_align(s, ".SKS"@, ".exe"@);
                assert((".SKS"@)[1] == (".exe"@).skip(0)[1]);
                assert(false);
            }
        } else if i == 4 {
            assert(text_suffixes_i()[4] == ".SKT"@);
            if (".SKT"@).is_suffix_of(s) {
                lemma_suffix_align(s, ".SKT"@, ".exe"@);
                assert((".SKT"@)[1] == (".exe"@).skip(0)[1]);
                assert(false);
            }
        } else if i == 5 {
            assert(text_suffixes_i()[5] == ".SKZ"@);
            if (".SKZ"@).is_suffix_of(s) {
                lemma_suffix_align(s, ".SKZ"@, ".exe"@);
                assert((".SKZ"@)[1] == (".exe"@).skip(0)[1]);
                assert(false);
            }
        } else if i == 6 {
            assert(text_suffixes_i()[6] == ".SLN"@);
            if (".SLN"@).is_suffix_of(s) {
                lemma_suffix_align(s, ".SLN"@, ".exe"@);
                assert((".SLN"@)[1] == (".exe"@).skip(0)[1]);
                assert(false);
            }
        } else if i == 7 {
            assert(text_suffixes_i()[7] == ".SPIN"@);
            if (".SPIN"@).is_suffix_of(s) {
                lemma_suffix_align(s, ".exe"@, ".SPIN"@);
                assert((".exe"@)[0] == (".SPIN"@).skip(1)[0]);
                assert(false);
            }
        } else if i == 8 {
            assert(text_suffixes_i()[8] == ".STK"@);
            if (".STK"@).is_suffix_of(s) {
                lemma_suffix_align(s, ".STK"@, ".exe"@);
                assert((".STK"@)[1] == (".exe"@).skip(0)[1]);
                assert(false);
            }
        } else if i == 9 {
            assert(text_suffixes_i()[9] == ".SWG"@);
            if (".SWG"@).is_suffix_of(s) {
                lemma_suffix_align(s, ".SWG"@, ".exe"@);
                assert((".SWG"@)[1] == (".exe"@).skip(0)[1]);
                assert(false);
            }
        } else if i == 10 {
            assert(text_suffixes_i()[10] == ".TCL"@);
            if (".TCL"@).is_suffix_of(s) {
                lemma_suffix_align(s, ".TCL"@, ".exe"@);
                assert((".TCL"@)[1] == (".exe"@).skip(0)[1]);
                assert(false);
            }
        } else if i == 11 {
            assert(text_suffixes_i()[11] == ".VAP"@);
            if (".VAP"@).is_suffix_of(s) {
                lemma_suffix_align(s, ".VAP"@, ".exe"@);
                assert((".VAP"@)[1] == (".exe"@).skip(0)[1]);
                assert(false);
            }
        } else if i == 12 {
            assert(text_suffixes_i()[12] == ".VB"@);
            if (".VB"@).is_suffix_of(s) {
                lemma_suffix_align(s, ".VB"@, ".exe"@);
                assert((".VB"@)[0] == (".exe"@).skip(1)[0]);
                assert(false);
            }
        } else if i == 13 {
            assert(text_suffixes_i()[13] == ".VBG"@);
            if (".VBG"@).is_suffix_of(s) {
                lemma_suffix_align(s, ".VBG"@, ".exe"@);
                assert((".VBG"@)[1] == (".exe"@).skip(0)[1]);
                assert(false);
            }
        } else if i == 14 {
            assert(text_suffixes_i()[14] == ".VBP"@);
            if (".VBP"@).is_suffix_of(s) {
                lemma_suffix_align(s, ".VBP"@, ".exe"@);
                assert((".VBP"@)[1] == (".exe"@).skip(0)[1]);
                assert(false);
            }
        } else if i == 15 {
            assert(text_suffixes_i()[15] == ".VIP"@);
            if (".VIP"@).is_suffix_of(s) {
                lemma_suffix_align(s, ".VIP"@, ".exe"@);
                assert((".VIP"@)[1] == (".exe"@).skip(0)[1]);
                assert(false);
            }
        } else if i == 16 {
            assert(text_suffixes_i()[16] == ".VBPROJ"@);
            if (".VBPROJ"@).is_suffix_of(s) {
                lemma_suffix_align(s, ".exe"@, ".VBPROJ"@);
                assert((".exe"@)[0] == (".VBPROJ"@).skip(3)[0]);
                assert(false);
            }
        } else if i == 17 {
            assert(text_suffixes_i()[17] == ".VCPROJ"@);
            if (".VCPROJ"@).is_suffix_of(s) {
                lemma_suffix_align(s, ".exe"@, ".VCPROJ"@);
                assert((".exe"@)[0] == (".VCPROJ"@).skip(3)[0]);
                assert(false);
            }
        } else if i == 18 {
            assert(text_suffixes_i()[18] == ".VDPROJ"@);
            if (".VDPROJ"@).is_suffix_of(s) {
                lemma_suffix_align(s, ".exe"@, ".VDPROJ"@);
                assert((".exe"@)[0] == (".VDPROJ"@).skip(3)[0]);
                assert(false);
            }
        } else if i == 19 {
            assert(text_suffixes_i()[19] == ".XPL"@);
            if (".XPL"@).is_suffix_of(s) {
                lemma_suffix_align(s, ".XPL"@, ".exe"@);
                assert((".XPL"@)[1] == (".exe"@).skip(0)[1]);
                assert(false);
            }
        } else if i == 20 {
            assert(text_suffixes_i()[20] == ".XQ"@);
            if (".XQ"@).is_suffix_of(s) {
                lemma_suffix_align(s, ".XQ"@, ".exe"@);
                assert((".XQ"@)[0] == (".exe"@).skip(1)[0]);
                assert(false);
            }
        } else if i == 21 {
            assert(text_suffixes_i()[21] == ".XSL"@);
            if (".XSL"@).is_suffix_of(s) {
                lemma_suffix_align(s, ".XSL"@, ".exe"@);
                assert((".XSL"@)[1] == (".exe"@).skip(0)[1]);
                assert(false);
            }
        } else {
            assert(text_suffixes_i()[22] == ".Y"@);
            if (".Y"@).is_suffix_of(s) {
                lemma_suffix_align(s, ".Y"@, ".exe"@);
                assert((".Y"@)[0] == (".exe"@).skip(2)[0]);
                assert(false);
            }
        }
    }
}

/// A URL whose query-stripped form ends in the executable suffix is
/// classified as ignored: neither table holds a suffix that can end it.
pub proof fn lemma_exe_suffix_is_ignored(url: Seq<char>)
    requires
        (".exe"@).is_suffix_of(strip_query(url)),
    ensures
        spec_classify(url) == AttachmentKind::Ignored,
{
    let s = strip_query(url);
    image_table_avoids_exe(s);
    text_table_a_avoids_exe(s);
    text_table_b_avoids_exe(s);
    text_table_c_avoids_exe(s);
    text_table_d_avoids_exe(s);
    text_table_e_avoids_exe(s);
    text_table_f_avoids_exe(s);
    text_table_g_avoids_exe(s);
    text_table_h_avoids_exe(s);
    text_table_i_avoids_exe(s);
    assert forall|i: int| 0 <= i < text_suffixes().len() implies !(#[trigger] text_suffixes()[i]).is_suffix_of(s) by {
        if i < 25 {
            assert(text_suffixes()[i] == text_suffixes_a()[i - 0]);
        } else if i < 50 {
            assert(text_suffixes()[i] == text_suffixes_b()[i - 25]);
        } else if i < 75 {
            assert(text_suffixes()[i] == text_suffixes_c()[i - 50]);
        } else if i < 100 {
            assert(text_suffixes()[i] == text_suffixes_d()[i - 75]);
        } else if i < 125 {
            assert(text_suffixes()[i] == text_suffixes_e()[i - 100]);
        } else if i < 150 {
            assert(text_suffixes()[i] == text_suffixes_f()[i - 125]);
        } else if i < 175 {
            assert(text_suffixes()[i] == text_suffixes_g()[i - 150]);
        } else if i < 200 {
            assert(text_suffixes()[i] == text_suffixes_h()[i - 175]);
        } else {
            assert(text_suffixes()[i] == text_suffixes_i()[i - 200]);
        }
    }
    assert(!has_suffix_in(s, image_suffixes()));
    assert(!has_suffix_in(s, text_suffixes()));
}

} // verus!
