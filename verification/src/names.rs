use vstd::prelude::*;

verus! {

/// A name is reserved when it begins with a dot; reserved names carry
/// repository metadata (such as the recipient file) and never appear in
/// entry listings.
pub open spec fn spec_is_reserved(name: Seq<char>) -> bool {
    name.len() > 0 && name[0] == '.'
}

/// Decide whether an entry name is reserved (begins with `.`).
pub fn is_reserved_name(name: &str) -> (r: bool)
    ensures
        r == spec_is_reserved(name@),
{
    let n = name.unicode_len();
    if n == 0 {
        false
    } else {
        name.get_char(0) == '.'
    }
}

/// The characters stripped from both ends of the recipient identifier:
/// the Unicode white-space code points.
pub open spec fn spec_is_space(c: char) -> bool {
    let n = c as u32;
    n == 0x20 || (0x9 <= n && n <= 0xD) || n == 0x85 || n == 0xA0 || n == 0x1680 || (0x2000 <= n
        && n <= 0x200A) || n == 0x2028 || n == 0x2029 || n == 0x202F || n == 0x205F || n == 0x3000
}

fn is_space_char(c: char) -> (r: bool)
    ensures
        r == spec_is_space(c),
{
    let n = c as u32;
    n == 0x20 || (0x9 <= n && n <= 0xD) || n == 0x85 || n == 0xA0 || n == 0x1680 || (0x2000 <= n
        && n <= 0x200A) || n == 0x2028 || n == 0x2029 || n == 0x202F || n == 0x205F || n == 0x3000
}

/// The text with leading white space removed.
pub open spec fn trim_front(s: Seq<char>) -> Seq<char>
    decreases s.len(),
{
    if s.len() > 0 && spec_is_space(s[0]) {
        trim_front(s.drop_first())
    } else {
        s
    }
}

/// The text with trailing white space removed.
pub open spec fn trim_back(s: Seq<char>) -> Seq<char>
    decreases s.len(),
{
    if s.len() > 0 && spec_is_space(s.last()) {
        trim_back(s.drop_last())
    } else {
        s
    }
}

/// The text with surrounding white space removed.
pub open spec fn spec_trimmed(s: Seq<char>) -> Seq<char> {
    trim_back(trim_front(s))
}

proof fn lemma_trim_front_skip(s: Seq<char>, i: int)
    requires
        0 <= i <= s.len(),
        forall|k: int| 0 <= k < i ==> spec_is_space(s[k]),
        i < s.len() ==> !spec_is_space(s[i]),
    ensures
        trim_front(s) == s.subrange(i, s.len() as int),
    decreases i,
{
    if i == 0 {
        assert(s.subrange(0, s.len() as int) =~= s);
    } else {
        let t = s.drop_first();
        assert(forall|k: int| 0 <= k < i - 1 ==> spec_is_space(#[trigger] t[k]));
        lemma_trim_front_skip(t, i - 1);
        assert(t.subrange(i - 1, t.len() as int) =~= s.subrange(i, s.len() as int));
    }
}

proof fn lemma_trim_back_skip(s: Seq<char>, j: int)
    requires
        0 <= j <= s.len(),
        forall|k: int| j <= k < s.len() ==> spec_is_space(s[k]),
        j > 0 ==> !spec_is_space(s[j - 1]),
    ensures
        trim_back(s) == s.subrange(0, j),
    decreases s.len() - j,
{
    if j == s.len() {
        if j > 0 {
            assert(s.subrange(0, j) =~= s);
        } else {
            assert(s.subrange(0, 0) =~= s);
        }
    } else {
        let t = s.drop_last();
        assert(forall|k: int| j <= k < t.len() ==> spec_is_space(#[trigger] t[k]));
        lemma_trim_back_skip(t, j);
        assert(t.subrange(0, j) =~= s.subrange(0, j));
    }
}

/// Strip surrounding white space, as is done to the recipient identifier
/// before it is handed to the cipher tool.
pub fn trim_text(s: &str) -> (r: String)
    ensures
        r@ == spec_trimmed(s@),
{
    let n = s.unicode_len();
    let mut i: usize = 0;
    while i < n && is_space_char(s.get_char(i))
        invariant
            0 <= i <= n,
            n == s@.len(),
            forall|k: int| 0 <= k < i ==> spec_is_space(#[trigger] s@[k]),
        decreases n - i,
    {
        i = i + 1;
    }
    proof {
        lemma_trim_front_skip(s@, i as int);
    }
    let mut j: usize = n;
    while j > i && is_space_char(s.get_char(j - 1))
        invariant
            i <= j <= n,
            n == s@.len(),
            forall|k: int| j <= k < n ==> spec_is_space(#[trigger] s@[k]),
        decreases j,
    {
        j = j - 1;
    }
    let sub = s.substring_char(i, j);
    proof {
        let t = s@.subrange(i as int, n as int);
        assert(forall|k: int| j - i <= k < t.len() ==> spec_is_space(#[trigger] t[k]));
        lemma_trim_back_skip(t, j - i);
        assert(t.subrange(0, j - i) =~= s@.subrange(i as int, j as int));
    }
    String::from_str(sub)
}

/// A directory path extended with one more component; a separator is
/// added only when the directory does not already end with one.
pub open spec fn spec_join(dir: Seq<char>, name: Seq<char>) -> Seq<char> {
    if dir.len() > 0 && dir.last() == '/' {
        dir + name
    } else {
        dir + seq!['/'] + name
    }
}

/// Append a file name to a directory path.
pub fn join_path(dir: &str, name: &str) -> (r: String)
    ensures
        r@ == spec_join(dir@, name@),
{
    let n = dir.unicode_len();
    if n > 0 && dir.get_char(n - 1) == '/' {
        String::from_str(dir).concat(name)
    } else {
        let r = String::from_str(dir).concat("/").concat(name);
        proof {
            reveal_strlit("/");
            assert(("/")@ =~= seq!['/']);
            assert(dir@ + ("/")@ + name@ =~= dir@ + seq!['/'] + name@);
        }
        r
    }
}

/// The journal repository's place under a home directory: the fixed
/// subdirectory `.deary`. Where that home comes from is the calling
/// layer's business.
pub fn repo_path_in(home: &str) -> (r: String)
    ensures
        r@ == spec_join(home@, ".deary"@),
{
    join_path(home, ".deary")
}

/// The tag of one recorded change; it only feeds the commit message.
#[derive(Clone, Copy, PartialEq, Eq, Structural)]
pub enum Change {
    Add,
    Edit,
    Delete,
}

/// The word that opens the commit message of a change.
pub open spec fn spec_change_word(c: Change) -> Seq<char> {
    match c {
        Change::Add => "Add"@,
        Change::Edit => "Edit"@,
        Change::Delete => "Delete"@,
    }
}

/// The commit message that records a change to an entry.
pub open spec fn spec_commit_message(c: Change, name: Seq<char>) -> Seq<char> {
    spec_change_word(c) + " "@ + name
}

/// Build the commit message for a change: the change word, a space,
/// and the entry name.
pub fn commit_message(c: Change, name: &str) -> (r: String)
    ensures
        r@ == spec_commit_message(c, name@),
{
    let word = match c {
        Change::Add => "Add",
        Change::Edit => "Edit",
        Change::Delete => "Delete",
    };
    String::from_str(word).concat(" ").concat(name)
}

/// The views of a sequence of strings.
pub open spec fn views_of(names: Seq<String>) -> Seq<Seq<char>> {
    names.map_values(|s: String| s@)
}

/// The listing visible to callers: every name except the reserved ones,
/// in the order given.
pub open spec fn spec_visible(names: Seq<Seq<char>>) -> Seq<Seq<char>> {
    names.filter(|n: Seq<char>| !spec_is_reserved(n))
}

/// Keep the names that are not reserved, preserving their order.
pub fn filter_visible(names: &Vec<String>) -> (r: Vec<String>)
    ensures
        views_of(r@) == spec_visible(views_of(names@)),
        forall|k: int| 0 <= k < r@.len() ==> !spec_is_reserved(#[trigger] r@[k]@),
{
    let mut out: Vec<String> = Vec::new();
    let mut idx: usize = 0;
    while idx < names.len()
        invariant
            idx <= names@.len(),
            views_of(out@) == spec_visible(views_of(names@.subrange(0, idx as int))),
            forall|k: int| 0 <= k < out@.len() ==> !spec_is_reserved(#[trigger] out@[k]@),
        decreases names@.len() - idx,
    {
        let nm = &names[idx];
        let keep = !is_reserved_name(nm.as_str());
        proof {
            reveal_with_fuel(Seq::filter, 2);
            let pre = views_of(names@.subrange(0, idx as int));
            let cur = views_of(names@.subrange(0, idx as int + 1));
            assert(cur =~= pre.push(names@[idx as int]@));
            assert(cur.drop_last() =~= pre);
            if keep {
                assert(views_of(out@.push(names@[idx as int])) =~= views_of(out@).push(
                    names@[idx as int]@,
                ));
            }
        }
        if keep {
            out.push(nm.clone());
        }
        idx = idx + 1;
    }
    proof {
        assert(names@.subrange(0, names@.len() as int) =~= names@);
    }
    out
}

} // verus!
