//! Turns what the source analyser and `git ls-remote` report into records:
//! the HEAD hash, paths relative to the repository root, and languages
//! ordered by size.
use vstd::prelude::*;
use crate::data::{lines_of, Data, FileInfo, FileView, Info, LanguageInfo, LanguageView};

verus! {

/// `hash` is the first tab-separated field of `line`: the longest prefix
/// without a tab.
pub open spec fn is_first_field(line: Seq<char>, hash: Seq<char>) -> bool {
    &&& hash.len() <= line.len()
    &&& hash == line.subrange(0, hash.len() as int)
    &&& forall|i: int| 0 <= i < hash.len() ==> hash[i] != '\t'
    &&& (hash.len() == line.len() || line[hash.len() as int] == '\t')
}

/// The commit hash in the output of `git ls-remote <url> HEAD`: the text
/// before the first tab (all of it when there is none).
pub fn head_hash(output: &String) -> (r: String)
    ensures
        is_first_field(output@, r@),
{
    let text = output.as_str();
    let n = text.unicode_len();
    let mut i: usize = 0;
    while i < n && text.get_char(i) != '\t'
        invariant
            n == text@.len(),
            text@ == output@,
            i <= n,
            forall|k: int| 0 <= k < i ==> text@[k] != '\t',
        decreases n - i,
    {
        i += 1;
    }
    let r = String::from_str(text.substring_char(0, i));
    assert(r@.len() == i);
    r
}

/// `file` lies inside the directory `root`: it is `root`, a slash, and more.
pub open spec fn under_root(root: Seq<char>, file: Seq<char>) -> bool {
    &&& file.len() > root.len()
    &&& file.subrange(0, root.len() as int) == root
    &&& file[root.len() as int] == '/'
}

/// The path of `file` relative to `root` (what follows `root` and the slash).
pub open spec fn relative_to(root: Seq<char>, file: Seq<char>) -> Seq<char> {
    file.subrange(root.len() as int + 1, file.len() as int)
}

/// The path of `file` relative to the directory `root`, or `None` when the
/// file is not inside it.
pub fn relative_path(root: &String, file: &String) -> (r: Option<String>)
    ensures
        match r {
            Some(rel) => under_root(root@, file@) && rel@ == relative_to(root@, file@),
            None => !under_root(root@, file@),
        },
{
    let root_text = root.as_str();
    let file_text = file.as_str();
    let n = root_text.unicode_len();
    let m = file_text.unicode_len();
    if m <= n {
        return None;
    }
    let mut i: usize = 0;
    while i < n
        invariant
            root_text@ == root@,
            file_text@ == file@,
            n == root@.len(),
            m == file@.len(),
            n < m,
            i <= n,
            forall|k: int| 0 <= k < i ==> file@[k] == root@[k],
        decreases n - i,
    {
        if file_text.get_char(i) != root_text.get_char(i) {
            assert(file@.subrange(0, n as int)[i as int] != root@[i as int]);
            return None;
        }
        i += 1;
    }
    assert(file@.subrange(0, n as int) =~= root@);
    if file_text.get_char(n) != '/' {
        return None;
    }
    Some(String::from_str(file_text.substring_char(n + 1, m)))
}

/// The counts of a language with each file path taken relative to `root`.
pub open spec fn relativized(lang: LanguageView, root: Seq<char>) -> LanguageView {
    LanguageView {
        files: lang.files.map_values(
            |f: FileView| FileView { path: relative_to(root, f.path), ..f },
        ),
        ..lang
    }
}

/// Every file of every language lies inside `root`.
pub open spec fn all_under_root(langs: Seq<LanguageInfo>, root: Seq<char>) -> bool {
    forall|i: int, j: int|
        0 <= i < langs.len() && 0 <= j < langs[i].files@.len() ==> under_root(
            root,
            #[trigger] langs[i].files@[j].path@,
        )
}

/// Languages are ordered by total lines, largest first.
pub open spec fn largest_first(langs: Seq<LanguageInfo>) -> bool {
    forall|i: int, j: int|
        0 <= i < j < langs.len() ==> lines_of(#[trigger] langs[i].total) >= lines_of(
            #[trigger] langs[j].total,
        )
}

/// The views of a sequence of languages.
pub open spec fn views(langs: Seq<LanguageInfo>) -> Seq<LanguageView> {
    langs.map_values(|l: LanguageInfo| l@)
}

/// Inserting into a sequence inserts into its multiset.
proof fn lemma_insert_to_multiset<A>(s: Seq<A>, i: int, a: A)
    requires
        0 <= i <= s.len(),
    ensures
        s.insert(i, a).to_multiset() == s.to_multiset().insert(a),
{
    broadcast use vstd::seq_lib::group_to_multiset_ensures;

    let t = s.insert(i, a);
    t.to_multiset_ensures();
    assert(t.remove(i) =~= s);
    assert(t.contains(a)) by {
        assert(t[i] == a);
    }
    assert(t.to_multiset() =~= s.to_multiset().insert(a));
}

/// Orders `langs` by total lines, largest first; languages of equal size
/// keep their order.
pub fn sort_languages(langs: Vec<LanguageInfo>) -> (r: Vec<LanguageInfo>)
    ensures
        largest_first(r@),
        views(r@).to_multiset() == views(langs@).to_multiset(),
{
    broadcast use vstd::seq_lib::group_to_multiset_ensures;

    let ghost orig = langs@;
    let total = langs.len();
    let mut rest = langs;
    let mut out: Vec<LanguageInfo> = Vec::new();
    let mut k: usize = 0;
    assert(views(orig.subrange(0, 0)) =~= Seq::<LanguageView>::empty());
    assert(views(out@) =~= Seq::<LanguageView>::empty());
    while rest.len() > 0
        invariant
            k <= orig.len(),
            rest@ == orig.subrange(k as int, orig.len() as int),
            rest@.len() == orig.len() - k,
            orig.len() <= usize::MAX,
            largest_first(out@),
            views(out@).to_multiset() == views(orig.subrange(0, k as int)).to_multiset(),
        decreases rest@.len(),
    {
        let lang = rest.remove(0);
        assert(lang == orig[k as int]);
        let size = lang.total.lines();
        let mut j: usize = 0;
        while j < out.len() && out[j].total.lines() >= size
            invariant
                j <= out@.len(),
                forall|p: int| 0 <= p < j ==> lines_of(#[trigger] out@[p].total) >= size,
            decreases out@.len() - j,
        {
            j += 1;
        }
        let ghost before = out@;
        out.insert(j, lang);
        proof {
            assert forall|a: int, b: int| 0 <= a < b < out@.len() implies lines_of(
                #[trigger] out@[a].total,
            ) >= lines_of(#[trigger] out@[b].total) by {
                if b < j {
                } else if b == j {
                } else if a < j {
                    assert(before[b - 1] == out@[b]);
                    if j < before.len() {
                        assert(lines_of(before[j as int].total) < size);
                        if b - 1 > j {
                            assert(lines_of(before[j as int].total) >= lines_of(before[b - 1].total));
                        }
                    }
                } else if a == j {
                    assert(lines_of(before[j as int].total) < size);
                    if b - 1 > j {
                        assert(lines_of(before[j as int].total) >= lines_of(before[b - 1].total));
                    }
                } else {
                    assert(before[a - 1] == out@[a]);
                    assert(before[b - 1] == out@[b]);
                }
            }
            let done = orig.subrange(0, k as int);
            assert(views(out@) =~= views(before).insert(j as int, lang@));
            lemma_insert_to_multiset(views(before), j as int, lang@);
            assert(orig.subrange(0, k + 1) =~= done.push(lang));
            assert(views(orig.subrange(0, k + 1)) =~= views(done).push(lang@));
            views(done).to_multiset_ensures();
        }
        k += 1;
    }
    assert(orig.subrange(0, k as int) =~= orig);
    out
}

/// The files of one language with their paths taken relative to `root`, or
/// `None` when one of them is not inside it.
fn relativize_files(files: &Vec<FileInfo>, root: &String) -> (r: Option<Vec<FileInfo>>)
    ensures
        match r {
            Some(out) => (forall|j: int| 0 <= j < files@.len() ==> under_root(root@, #[trigger] files@[j].path@))
                && out@.map_values(|f: FileInfo| f@) == files@.map_values(|f: FileInfo| f@).map_values(
                    |f: FileView| FileView { path: relative_to(root@, f.path), ..f },
                ),
            None => exists|j: int| 0 <= j < files@.len() && !under_root(root@, #[trigger] files@[j].path@),
        },
{
    let mut out: Vec<FileInfo> = Vec::new();
    let mut k: usize = 0;
    while k < files.len()
        invariant
            k <= files@.len(),
            out@.len() == k,
            forall|j: int| 0 <= j < k ==> under_root(root@, #[trigger] files@[j].path@),
            forall|j: int| 0 <= j < k ==> (#[trigger] out@[j])@ == (FileView {
                path: relative_to(root@, files@[j].path@),
                ..files@[j]@
            }),
        decreases files@.len() - k,
    {
        let file = &files[k];
        match relative_path(root, &file.path) {
            Some(path) => {
                out.push(FileInfo::new(path, file.code, file.comments, file.blanks));
            },
            None => {
                return None;
            },
        }
        k += 1;
    }
    assert(out@.map_values(|f: FileInfo| f@) =~= files@.map_values(|f: FileInfo| f@).map_values(
        |f: FileView| FileView { path: relative_to(root@, f.path), ..f },
    ));
    Some(out)
}

/// Assembles the record of `repo_url` from what the source analyser reported
/// for its clone at `repo_root`: file paths become relative to the clone, and
/// languages are ordered by total lines, largest first. A file reported
/// outside the clone is an error.
pub fn data_from_analysis(
    repo_url: String,
    repo_root: &String,
    total: Info,
    languages: Vec<LanguageInfo>,
) -> (r: Result<Data, String>)
    ensures
        r is Ok <==> all_under_root(languages@, repo_root@),
        match r {
            Ok(d) => {
                &&& d.wf()
                &&& d.verified_time == d.creation_time
                &&& d.repo == repo_url
                &&& d.hash@ == Seq::<char>::empty()
                &&& d.total == total
                &&& largest_first(d.languages@)
                &&& views(d.languages@).to_multiset() == views(languages@).map_values(
                    |l: LanguageView| relativized(l, repo_root@),
                ).to_multiset()
            },
            Err(_) => true,
        },
{
    let mut normalized: Vec<LanguageInfo> = Vec::new();
    let mut k: usize = 0;
    while k < languages.len()
        invariant
            k <= languages@.len(),
            normalized@.len() == k,
            forall|i: int, j: int|
                0 <= i < k && 0 <= j < languages@[i].files@.len() ==> under_root(
                    repo_root@,
                    #[trigger] languages@[i].files@[j].path@,
                ),
            forall|i: int| 0 <= i < k ==> (#[trigger] normalized@[i])@ == relativized(languages@[i]@, repo_root@),
        decreases languages@.len() - k,
    {
        let lang = &languages[k];
        match relativize_files(&lang.files, repo_root) {
            Some(files) => {
                let entry = LanguageInfo { name: lang.name.clone(), total: lang.total, files: files };
                assert(entry@ == relativized(lang@, repo_root@));
                normalized.push(entry);
            },
            None => {
                let mut message = String::from_str("Failed to find the repository directory '");
                message.append(repo_root.as_str());
                message.append("' in the path of a file that was analysed.");
                return Err(message);
            },
        }
        k += 1;
    }
    assert(views(normalized@) =~= views(languages@).map_values(
        |l: LanguageView| relativized(l, repo_root@),
    ));
    let mut data = Data::new(repo_url, total);
    data.languages = sort_languages(normalized);
    Ok(data)
}

} // verus!
