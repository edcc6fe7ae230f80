//! Rules of the project tree panel: which entries it lists, how it marks
//! files, which file types each folder imports, and what a double click on
//! a file opens.

use vstd::prelude::*;
use std::cmp::Ordering;
use crate::text::{ends_with, has_suffix, str_equal};

verus! {

/// Entries whose name starts with a dot are not listed.
pub fn is_hidden_entry(name: &str) -> (r: bool)
    ensures
        r == (name@.len() > 0 && name@[0] == '.'),
{
    name.unicode_len() > 0 && name.get_char(0) == '.'
}

/// The folders shown unfolded at first: `script`, `map` and `gfx`.
pub fn opens_by_default(dir_name: &str) -> (r: bool)
    ensures
        r == (dir_name@ == "script"@ || dir_name@ == "map"@ || dir_name@ == "gfx"@),
{
    str_equal(dir_name, "script") || str_equal(dir_name, "map") || str_equal(dir_name, "gfx")
}

/// The icon put before a file name (given in lower case): scripts, C
/// headers, PNG images, anything else.
pub fn file_icon(name_lower: &str) -> (r: &'static str)
    ensures
        r@ == if has_suffix(name_lower@, ".spt"@) {
            "📜 "@
        } else if has_suffix(name_lower@, ".h"@) {
            "⚙️ "@
        } else if has_suffix(name_lower@, ".png"@) {
            "🖼 "@
        } else {
            "📄 "@
        },
{
    if ends_with(name_lower, ".spt") {
        "📜 "
    } else if ends_with(name_lower, ".h") {
        "⚙️ "
    } else if ends_with(name_lower, ".png") {
        "🖼 "
    } else {
        "📄 "
    }
}

/// What a double click on a file opens.
#[derive(Clone, Copy, Debug, PartialEq, Eq, Structural)]
pub enum TreeAction {
    /// Switch to the script editor.
    ScriptEditor,
    /// Switch to the script editor and load the clicked file into it.
    LoadIntoScriptEditor,
    /// Switch to the configurator.
    Configurator,
    /// Switch to the map canvas.
    MapCanvas,
}

/// What a double click on a file (name in lower case) opens: a `.h` in
/// `dev` opens the configurator for `config.h` and is loaded into the
/// script editor otherwise; outside that case `.prj` and `.map` files open
/// the map canvas, and a `.spt` in `script` opens the script editor.
pub open spec fn spec_file_action(name_lower: Seq<char>, in_script_dir: bool, in_dev_dir: bool) -> Option<TreeAction> {
    if in_dev_dir && has_suffix(name_lower, ".h"@) {
        if name_lower == "config.h"@ {
            Some(TreeAction::Configurator)
        } else {
            Some(TreeAction::LoadIntoScriptEditor)
        }
    } else if has_suffix(name_lower, ".prj"@) || has_suffix(name_lower, ".map"@) {
        Some(TreeAction::MapCanvas)
    } else if in_script_dir && has_suffix(name_lower, ".spt"@) {
        Some(TreeAction::ScriptEditor)
    } else {
        None
    }
}

/// Decides what a double click on a file opens (see `spec_file_action`).
pub fn file_action(name_lower: &str, in_script_dir: bool, in_dev_dir: bool) -> (r: Option<TreeAction>)
    ensures
        r == spec_file_action(name_lower@, in_script_dir, in_dev_dir),
{
    let mut action: Option<TreeAction> = None;
    if in_script_dir && ends_with(name_lower, ".spt") {
        action = Some(TreeAction::ScriptEditor);
    }
    if in_dev_dir && ends_with(name_lower, ".h") {
        if str_equal(name_lower, "config.h") {
            action = Some(TreeAction::Configurator);
        } else {
            action = Some(TreeAction::LoadIntoScriptEditor);
        }
    } else if ends_with(name_lower, ".prj") || ends_with(name_lower, ".map") {
        action = Some(TreeAction::MapCanvas);
    }
    action
}

/// The kinds of files a folder's "import" menu offers.
#[derive(Clone, Copy, Debug, PartialEq, Eq, Structural)]
pub enum ImportFilter {
    /// `gfx`: PNG images.
    Images,
    /// `script`: `.spt` scripts.
    Scripts,
    /// `dev`: C headers.
    Headers,
    /// `mus`: PT3 / MUS music.
    Music,
}

/// The import filter of a folder, by its name.
pub fn import_filter(dir_name: &str) -> (r: Option<ImportFilter>)
    ensures
        r == if dir_name@ == "gfx"@ {
            Some(ImportFilter::Images)
        } else if dir_name@ == "script"@ {
            Some(ImportFilter::Scripts)
        } else if dir_name@ == "dev"@ {
            Some(ImportFilter::Headers)
        } else if dir_name@ == "mus"@ {
            Some(ImportFilter::Music)
        } else {
            None
        },
{
    if str_equal(dir_name, "gfx") {
        Some(ImportFilter::Images)
    } else if str_equal(dir_name, "script") {
        Some(ImportFilter::Scripts)
    } else if str_equal(dir_name, "dev") {
        Some(ImportFilter::Headers)
    } else if str_equal(dir_name, "mus") {
        Some(ImportFilter::Music)
    } else {
        None
    }
}

impl ImportFilter {
    /// The filter's label in the file dialog.
    pub fn label(self, is_english: bool) -> (r: &'static str)
        ensures
            r@ == match self {
                ImportFilter::Images => if is_english { "Images (PNG)"@ } else { "Изображения (PNG)"@ },
                ImportFilter::Scripts => if is_english { "Scripts (.spt)"@ } else { "Скрипты (.spt)"@ },
                ImportFilter::Headers => if is_english { "C Header Files (.h)"@ } else { "Заголовочные файлы Си (.h)"@ },
                ImportFilter::Music => if is_english { "Music"@ } else { "Музыка"@ },
            },
    {
        match self {
            ImportFilter::Images => if is_english { "Images (PNG)" } else { "Изображения (PNG)" },
            ImportFilter::Scripts => if is_english { "Scripts (.spt)" } else { "Скрипты (.spt)" },
            ImportFilter::Headers => if is_english { "C Header Files (.h)" } else { "Заголовочные файлы Си (.h)" },
            ImportFilter::Music => if is_english { "Music" } else { "Музыка" },
        }
    }

    /// The file extensions the filter accepts.
    pub fn extensions(self) -> (r: Vec<&'static str>)
        ensures
            r@.len() == match self {
                ImportFilter::Images => 2int,
                ImportFilter::Scripts => 1,
                ImportFilter::Headers => 1,
                ImportFilter::Music => 2,
            },
            match self {
                ImportFilter::Images => r@[0]@ == "png"@ && r@[1]@ == "PNG"@,
                ImportFilter::Scripts => r@[0]@ == "spt"@,
                ImportFilter::Headers => r@[0]@ == "h"@,
                ImportFilter::Music => r@[0]@ == "pt3"@ && r@[1]@ == "mus"@,
            },
    {
        match self {
            ImportFilter::Images => vec!["png", "PNG"],
            ImportFilter::Scripts => vec!["spt"],
            ImportFilter::Headers => vec!["h"],
            ImportFilter::Music => vec!["pt3", "mus"],
        }
    }
}


/// Whether name `a` comes strictly before name `b`, character by character
/// (a proper prefix comes first).
pub open spec fn name_before(a: Seq<char>, b: Seq<char>) -> bool
    decreases a.len(),
{
    if a.len() == 0 {
        b.len() > 0
    } else if b.len() == 0 {
        false
    } else if a[0] != b[0] {
        a[0] < b[0]
    } else {
        name_before(a.drop_first(), b.drop_first())
    }
}

proof fn lemma_name_before_step(a: Seq<char>, b: Seq<char>, i: int)
    requires
        0 <= i <= a.len(),
        i <= b.len(),
        forall|j: int| 0 <= j < i ==> a[j] == b[j],
    ensures
        name_before(a, b) == name_before(a.subrange(i, a.len() as int), b.subrange(i, b.len() as int)),
    decreases i,
{
    if i > 0 {
        assert(a[0] == b[0]);
        lemma_name_before_step(a.drop_first(), b.drop_first(), i - 1);
        assert(a.drop_first().subrange(i - 1, a.len() - 1) =~= a.subrange(i, a.len() as int));
        assert(b.drop_first().subrange(i - 1, b.len() - 1) =~= b.subrange(i, b.len() as int));
    } else {
        assert(a.subrange(0, a.len() as int) =~= a);
        assert(b.subrange(0, b.len() as int) =~= b);
    }
}

/// The order of two entries of a listed folder: a folder before a file,
/// a file after a folder, and otherwise by name.
pub open spec fn entry_order_of(
    a_is_dir: bool,
    a_is_file: bool,
    a_name: Seq<char>,
    b_is_dir: bool,
    b_is_file: bool,
    b_name: Seq<char>,
) -> Ordering {
    if a_is_dir && b_is_file {
        Ordering::Less
    } else if a_is_file && b_is_dir {
        Ordering::Greater
    } else if name_before(a_name, b_name) {
        Ordering::Less
    } else if a_name == b_name {
        Ordering::Equal
    } else {
        Ordering::Greater
    }
}

/// Whether name `a` comes strictly before name `b` (see `name_before`).
pub fn names_in_order(a: &str, b: &str) -> (r: bool)
    ensures
        r == name_before(a@, b@),
{
    let n = a.unicode_len();
    let m = b.unicode_len();
    let mut i: usize = 0;
    while i < n && i < m
        invariant
            n == a@.len(),
            m == b@.len(),
            i <= n,
            i <= m,
            forall|j: int| 0 <= j < i ==> a@[j] == b@[j],
        decreases n - i,
    {
        let ca = a.get_char(i);
        let cb = b.get_char(i);
        if ca != cb {
            proof {
                lemma_name_before_step(a@, b@, i as int);
                let ra = a@.subrange(i as int, n as int);
                let rb = b@.subrange(i as int, m as int);
                assert(ra[0] == ca && rb[0] == cb);
            }
            return ca < cb;
        }
        i += 1;
    }
    proof {
        lemma_name_before_step(a@, b@, i as int);
    }
    n < m
}

/// Orders two entries of a listed folder (see `entry_order_of`).
pub fn entry_order(
    a_is_dir: bool,
    a_is_file: bool,
    a_name: &str,
    b_is_dir: bool,
    b_is_file: bool,
    b_name: &str,
) -> (r: Ordering)
    ensures
        r == entry_order_of(a_is_dir, a_is_file, a_name@, b_is_dir, b_is_file, b_name@),
{
    if a_is_dir && b_is_file {
        Ordering::Less
    } else if a_is_file && b_is_dir {
        Ordering::Greater
    } else if names_in_order(a_name, b_name) {
        Ordering::Less
    } else if str_equal(a_name, b_name) {
        Ordering::Equal
    } else {
        Ordering::Greater
    }
}


/// Names are totally ordered: of `a` before `b`, `a` equal to `b`, and `b`
/// before `a`, exactly one holds.
pub proof fn lemma_name_order_total(a: Seq<char>, b: Seq<char>)
    ensures
        name_before(a, b) || a == b || name_before(b, a),
        !(name_before(a, b) && name_before(b, a)),
        a == b ==> !name_before(a, b),
    decreases a.len(),
{
    if a.len() > 0 && b.len() > 0 && a[0] == b[0] {
        lemma_name_order_total(a.drop_first(), b.drop_first());
        if a.drop_first() == b.drop_first() {
            assert(a =~= seq![a[0]] + a.drop_first());
            assert(b =~= seq![b[0]] + b.drop_first());
        }
    } else if a.len() == 0 && b.len() == 0 {
        assert(a =~= b);
    }
}

/// The listing order is consistent for entries that are not both a folder
/// and a file: swapping two entries swaps `Less` and `Greater`, and only
/// an entry of the same kind and name compares `Equal`.
pub proof fn lemma_entry_order_antisymmetric(
    a_is_dir: bool,
    a_is_file: bool,
    a_name: Seq<char>,
    b_is_dir: bool,
    b_is_file: bool,
    b_name: Seq<char>,
)
    requires
        !(a_is_dir && a_is_file),
        !(b_is_dir && b_is_file),
    ensures
        (entry_order_of(a_is_dir, a_is_file, a_name, b_is_dir, b_is_file, b_name) == Ordering::Less)
            == (entry_order_of(b_is_dir, b_is_file, b_name, a_is_dir, a_is_file, a_name) == Ordering::Greater),
        (entry_order_of(a_is_dir, a_is_file, a_name, b_is_dir, b_is_file, b_name) == Ordering::Equal)
            ==> a_name == b_name,
{
    lemma_name_order_total(a_name, b_name);
}

} // verus!
