//! Rewriting the environment file of a project.
//!
//! The functions here take the text of the file and return the text it is to
//! hold; reading and writing the file is left to the caller, who treats both
//! as a best effort.

use crate::sites::{Site, SiteView};
use crate::text::{contains, free_of, has_prefix, has_substring, join, joined,
    lemma_joined_split_on, lemma_split_on_joined, occurs_at, replace, replace_all, split,
    split_on, starts_with, texts, to_chars};
use vstd::prelude::*;
use vstd::string::*;

verus! {

pub const URL_KEY: &'static str = "APP_URL=";

pub const NAME_KEY: &'static str = "APP_NAME=";

pub const SCHEME_PLAIN: &'static str = "http";

pub const SCHEME_TLS: &'static str = "https";

pub const SCHEME_END: &'static str = "://";

pub const NEWLINE: &'static str = "\n";

/// The line that sets the URL of a site: `https` for a secured site, `http`
/// otherwise.
pub open spec fn url_entry(site: SiteView) -> Seq<char> {
    URL_KEY@ + (if site.secured {
        SCHEME_TLS@
    } else {
        SCHEME_PLAIN@
    }) + SCHEME_END@ + site.domain
}

/// The index of the first line that begins with `prefix`.
pub open spec fn first_beginning(all: Seq<Seq<char>>, prefix: Seq<char>) -> Option<int>
    decreases all.len(),
{
    if all.len() == 0 {
        None
    } else {
        match first_beginning(all.drop_last(), prefix) {
            Some(i) => Some(i),
            None => if starts_with(all.last(), prefix) {
                Some(all.len() - 1)
            } else {
                None
            },
        }
    }
}

/// The lines of a file with every line that begins with `APP_URL=` replaced
/// by `entry`.
pub open spec fn with_url_lines(all: Seq<Seq<char>>, entry: Seq<char>) -> Seq<Seq<char>> {
    Seq::new(
        all.len(),
        |i: int|
            if starts_with(all[i], URL_KEY@) {
                entry
            } else {
                all[i]
            },
    )
}

/// The lines of an environment file after its URL entry was set.
///
/// Where a line begins with `APP_URL=`, each such line becomes the entry.
/// Otherwise the entry is put in as one line of its own: before the first
/// line that begins with `APP_NAME=`, or as the first line where there is
/// none. Every other line stays as it is, in its place.
pub open spec fn env_lines(all: Seq<Seq<char>>, entry: Seq<char>) -> Seq<Seq<char>> {
    if first_beginning(all, URL_KEY@) is Some {
        with_url_lines(all, entry)
    } else {
        match first_beginning(all, NAME_KEY@) {
            Some(at) => all.insert(at, entry),
            None => all.insert(0, entry),
        }
    }
}

/// The environment file after its URL entry was set for `site`: the file is
/// cut at its line feeds, the lines are changed as [`env_lines`] says, and
/// put together again with the line feeds between them. Nothing else of the
/// file changes.
pub open spec fn env_for(content: Seq<char>, site: SiteView) -> Seq<char> {
    joined(env_lines(split_on(content, '\n'), url_entry(site)), NEWLINE@)
}

/// `first_beginning` finds the least index of a line that begins with the
/// prefix.
pub proof fn lemma_first_beginning(all: Seq<Seq<char>>, prefix: Seq<char>)
    ensures
        match first_beginning(all, prefix) {
            Some(i) => 0 <= i < all.len() && starts_with(all[i], prefix) && forall|j: int|
                0 <= j < i ==> !starts_with(#[trigger] all[j], prefix),
            None => forall|j: int| 0 <= j < all.len() ==> !starts_with(#[trigger] all[j], prefix),
        },
    decreases all.len(),
{
    if all.len() > 0 {
        let front = all.drop_last();
        lemma_first_beginning(front, prefix);
        assert(forall|j: int| 0 <= j < front.len() ==> front[j] == all[j]);
        match first_beginning(front, prefix) {
            Some(i) => {
                assert(all[i] == front[i]);
            },
            None => {
                assert forall|j: int| 0 <= j < all.len() - 1 implies !starts_with(
                    #[trigger] all[j],
                    prefix,
                ) by {
                    assert(front[j] == all[j]);
                }
            },
        }
    }
}

/// A line found among the first lines is the line found among all.
pub proof fn lemma_first_beginning_prefix(all: Seq<Seq<char>>, prefix: Seq<char>, n: int)
    requires
        0 <= n <= all.len(),
        first_beginning(all.take(n), prefix) is Some,
    ensures
        first_beginning(all, prefix) == first_beginning(all.take(n), prefix),
    decreases all.len() - n,
{
    if n < all.len() {
        assert(all.take(n + 1).drop_last() =~= all.take(n));
        lemma_first_beginning_prefix(all, prefix, n + 1);
    } else {
        assert(all.take(n) =~= all);
    }
}

/// Whatever the file held, one of its lines is the entry afterwards; and
/// where the entry holds no line feed, the lines of the new file are exactly
/// the lines that [`env_lines`] names.
pub proof fn law_env_has_the_entry_line(content: Seq<char>, site: SiteView)
    ensures
        exists|i: int|
            0 <= i < env_lines(split_on(content, '\n'), url_entry(site)).len() && #[trigger] env_lines(
                split_on(content, '\n'),
                url_entry(site),
            )[i] == url_entry(site),
        free_of(seq![url_entry(site)], '\n') ==> split_on(env_for(content, site), '\n')
            == env_lines(split_on(content, '\n'), url_entry(site)),
{
    let entry = url_entry(site);
    let all = split_on(content, '\n');
    let after = env_lines(all, entry);
    lemma_first_beginning(all, URL_KEY@);
    lemma_first_beginning(all, NAME_KEY@);
    lemma_joined_split_on(content, '\n');
    let at: int = match first_beginning(all, URL_KEY@) {
        Some(i) => i,
        None => match first_beginning(all, NAME_KEY@) {
            Some(k) => k,
            None => 0,
        },
    };
    assert(after[at] == entry);
    if free_of(seq![entry], '\n') {
        reveal_strlit("\n");
        assert(NEWLINE@ =~= seq!['\n']);
        assert forall|i: int, j: int| 0 <= i < after.len() && 0 <= j < after[i].len() implies after[i][j]
            != '\n' by {
            if after[i] == entry {
                assert(seq![entry][0][j] != '\n');
            } else if first_beginning(all, URL_KEY@) is Some {
                assert(after[i] == all[i]);
            } else if i < at {
                assert(after[i] == all[i]);
            } else {
                assert(after[i] == all[i - 1]);
            }
        }
        lemma_split_on_joined(after, '\n');
    }
}

/// Where no line of the file begins with `APP_URL=`, the entry comes in as
/// one line of its own and every line of the file stays: taking the entry
/// out again gives the lines of the file, and no other line is the entry.
pub proof fn law_env_insertion_keeps_every_line(content: Seq<char>, site: SiteView)
    requires
        first_beginning(split_on(content, '\n'), URL_KEY@) is None,
    ensures
        ({
            let all = split_on(content, '\n');
            let after = env_lines(all, url_entry(site));
            exists|at: int|
                {
                    &&& 0 <= at <= all.len()
                    &&& #[trigger] all.insert(at, url_entry(site)) == after
                    &&& after.remove(at) == all
                    &&& forall|i: int|
                        0 <= i < after.len() && i != at ==> #[trigger] after[i] != url_entry(site)
                }
        }),
{
    let entry = url_entry(site);
    let all = split_on(content, '\n');
    let after = env_lines(all, entry);
    lemma_first_beginning(all, URL_KEY@);
    lemma_first_beginning(all, NAME_KEY@);
    let at: int = match first_beginning(all, NAME_KEY@) {
        Some(k) => k,
        None => 0,
    };
    assert(after == all.insert(at, entry));
    assert(after.remove(at) =~= all);
    assert(entry.subrange(0, URL_KEY@.len() as int) =~= URL_KEY@);
    assert(starts_with(entry, URL_KEY@));
    assert forall|i: int| 0 <= i < after.len() && i != at implies #[trigger] after[i] != entry by {
        if i < at {
            assert(after[i] == all[i]);
        } else {
            assert(after[i] == all[i - 1]);
        }
    }
}

/// The line that sets the URL of a site.
pub fn app_url_entry(site: &Site) -> (r: String)
    ensures
        r@ == url_entry(site@),
{
    let mut out = URL_KEY.to_string();
    if site.secured {
        out.append(SCHEME_TLS);
    } else {
        out.append(SCHEME_PLAIN);
    }
    out.append(SCHEME_END);
    out.append(site.domain.as_str());
    out
}

fn find_beginning(all: &Vec<String>, prefix: &str) -> (r: Option<usize>)
    ensures
        match r {
            Some(i) => first_beginning(texts(all@), prefix@) == Some(i as int) && i < all.len(),
            None => first_beginning(texts(all@), prefix@) is None,
        },
{
    let ghost every = texts(all@);
    let pattern = to_chars(prefix);
    let mut i: usize = 0;
    while i < all.len()
        invariant
            i <= all.len(),
            every == texts(all@),
            pattern@ == prefix@,
            first_beginning(every.take(i as int), prefix@) is None,
        decreases all.len() - i,
    {
        proof {
            assert(every.take(i + 1).drop_last() =~= every.take(i as int));
            assert(every.take(i + 1).last() == all@[i as int]@);
        }
        let line = to_chars(all[i].as_str());
        if has_prefix(&line, &pattern) {
            proof {
                lemma_first_beginning_prefix(every, prefix@, i + 1);
            }
            return Some(i);
        }
        i += 1;
    }
    assert(every.take(all@.len() as int) =~= every);
    None
}

fn rewrite_url_lines(all: &Vec<String>, entry: &String) -> (r: Vec<String>)
    ensures
        texts(r@) == with_url_lines(texts(all@), entry@),
{
    let url_key = to_chars(URL_KEY);
    let ghost wanted = with_url_lines(texts(all@), entry@);
    let mut updated: Vec<String> = Vec::new();
    let mut i: usize = 0;
    assert(texts(updated@) =~= wanted.take(0));
    while i < all.len()
        invariant
            i <= all.len(),
            url_key@ == URL_KEY@,
            wanted == with_url_lines(texts(all@), entry@),
            texts(updated@) == wanted.take(i as int),
        decreases all.len() - i,
    {
        let ghost before = texts(updated@);
        let line = to_chars(all[i].as_str());
        assert(texts(all@)[i as int] == all@[i as int]@);
        if has_prefix(&line, &url_key) {
            updated.push(entry.clone());
        } else {
            updated.push(all[i].clone());
        }
        assert(texts(updated@) =~= before.push(wanted[i as int]));
        assert(texts(updated@) =~= wanted.take(i + 1));
        i += 1;
    }
    assert(wanted.take(all@.len() as int) =~= wanted);
    updated
}

/// The text the environment file of `site` is to hold, given the text
/// `content` it holds now; see [`env_for`]. Whatever the file held, one line
/// of the result is the entry of the site, and every line that is not
/// replaced stays.
pub fn update_laravel_env(site: &Site, content: &str) -> (r: String)
    ensures
        r@ == env_for(content@, site@),
        exists|i: int|
            0 <= i < env_lines(split_on(content@, '\n'), url_entry(site@)).len() && #[trigger] env_lines(
                split_on(content@, '\n'),
                url_entry(site@),
            )[i] == url_entry(site@),
        free_of(seq![url_entry(site@)], '\n') ==> split_on(r@, '\n') == env_lines(
            split_on(content@, '\n'),
            url_entry(site@),
        ),
{
    proof {
        law_env_has_the_entry_line(content@, site@);
    }
    let entry = app_url_entry(site);
    let mut all = split(content, '\n');
    let ghost before = texts(all@);
    let updated = match find_beginning(&all, URL_KEY) {
        Some(_) => rewrite_url_lines(&all, &entry),
        None => {
            let at = match find_beginning(&all, NAME_KEY) {
                Some(i) => i,
                None => 0,
            };
            all.insert(at, entry);
            assert(texts(all@) =~= before.insert(at as int, entry@));
            all
        },
    };
    join(&updated, NEWLINE)
}

// ---------------------------------------------------------------------------
// Container host names
// ---------------------------------------------------------------------------
pub const LOOPBACK: &'static str = "127.0.0.1";

pub const HOST_KEY_END: &'static str = "_HOST=";

pub const RULE_COUNT: usize = 13;

/// The service settings and the container host names they are known to
/// carry, in the order in which they are rewritten. A host name that begins
/// with another one of the same setting stands before it.
pub open spec fn host_rule(index: int) -> (Seq<char>, Seq<char>) {
    if index == 0 {
        ("DB"@, "mysql"@)
    } else if index == 1 {
        ("DB"@, "mariadb"@)
    } else if index == 2 {
        ("DB"@, "postgres"@)
    } else if index == 3 {
        ("REDIS"@, "redis"@)
    } else if index == 4 {
        ("CACHE"@, "redis"@)
    } else if index == 5 {
        ("SESSION"@, "redis"@)
    } else if index == 6 {
        ("QUEUE"@, "redis"@)
    } else if index == 7 {
        ("MAIL"@, "mailhog"@)
    } else if index == 8 {
        ("MAIL"@, "mailpit"@)
    } else if index == 9 {
        ("MEILISEARCH"@, "meilisearch"@)
    } else if index == 10 {
        ("ELASTICSEARCH"@, "elasticsearch"@)
    } else if index == 11 {
        ("MONGODB"@, "mongodb"@)
    } else {
        ("MONGODB"@, "mongo"@)
    }
}

/// The assignment that rule `index` looks for.
pub open spec fn host_pattern(index: int) -> Seq<char> {
    host_rule(index).0 + HOST_KEY_END@ + host_rule(index).1
}

/// The assignment that rule `index` puts in its place: the same setting,
/// pointing at the loopback address.
pub open spec fn host_replacement(index: int) -> Seq<char> {
    host_rule(index).0 + HOST_KEY_END@ + LOOPBACK@
}

/// The text after the first `count` rules were applied, one after another.
pub open spec fn hosts_fixed(content: Seq<char>, count: nat) -> Seq<char>
    decreases count,
{
    if count == 0 {
        content
    } else {
        replace_all(
            hosts_fixed(content, (count - 1) as nat),
            host_pattern(count - 1),
            host_replacement(count - 1),
        )
    }
}

/// Whether one of the first `count` rules found its assignment when its
/// turn came.
pub open spec fn hosts_changed(content: Seq<char>, count: nat) -> bool
    decreases count,
{
    if count == 0 {
        false
    } else {
        hosts_changed(content, (count - 1) as nat) || contains(
            hosts_fixed(content, (count - 1) as nat),
            host_pattern(count - 1),
        )
    }
}

fn host_rule_at(index: usize) -> (r: (&'static str, &'static str))
    ensures
        r.0@ == host_rule(index as int).0,
        r.1@ == host_rule(index as int).1,
{
    if index == 0 {
        ("DB", "mysql")
    } else if index == 1 {
        ("DB", "mariadb")
    } else if index == 2 {
        ("DB", "postgres")
    } else if index == 3 {
        ("REDIS", "redis")
    } else if index == 4 {
        ("CACHE", "redis")
    } else if index == 5 {
        ("SESSION", "redis")
    } else if index == 6 {
        ("QUEUE", "redis")
    } else if index == 7 {
        ("MAIL", "mailhog")
    } else if index == 8 {
        ("MAIL", "mailpit")
    } else if index == 9 {
        ("MEILISEARCH", "meilisearch")
    } else if index == 10 {
        ("ELASTICSEARCH", "elasticsearch")
    } else if index == 11 {
        ("MONGODB", "mongodb")
    } else {
        ("MONGODB", "mongo")
    }
}

/// The text an environment file is to hold so that the services it names by
/// container host name are looked for on the loopback address, and whether
/// that differs from what a rule found: every known assignment such as
/// `DB_HOST=mysql` becomes `DB_HOST=127.0.0.1`. The file needs writing only
/// where the second component is `true`.
pub fn fix_docker_hostnames_in_env(content: &str) -> (r: (String, bool))
    ensures
        r.0@ == hosts_fixed(content@, RULE_COUNT as nat),
        r.1 == hosts_changed(content@, RULE_COUNT as nat),
{
    let mut text = content.to_string();
    let mut changed = false;
    let mut i: usize = 0;
    while i < RULE_COUNT
        invariant
            i <= RULE_COUNT,
            text@ == hosts_fixed(content@, i as nat),
            changed == hosts_changed(content@, i as nat),
        decreases RULE_COUNT - i,
    {
        let (key, host) = host_rule_at(i);
        let pattern = key.to_string().concat(HOST_KEY_END).concat(host);
        let replacement = key.to_string().concat(HOST_KEY_END).concat(LOOPBACK);
        let haystack = to_chars(text.as_str());
        let needle = to_chars(pattern.as_str());
        if has_substring(&haystack, &needle) {
            text = replace(text.as_str(), pattern.as_str(), replacement.as_str());
            changed = true;
        } else {
            proof {
                lemma_replace_absent(text@, pattern@, replacement@);
            }
        }
        i += 1;
    }
    (text, changed)
}

/// Replacing a pattern that does not occur changes nothing.
pub proof fn lemma_replace_absent(s: Seq<char>, from: Seq<char>, to: Seq<char>)
    requires
        !contains(s, from),
    ensures
        replace_all(s, from, to) == s,
    decreases s.len(),
{
    if from.len() > 0 && s.len() >= from.len() {
        assert(!occurs_at(s, from, 0));
        let rest = s.skip(1);
        assert forall|i: int| !occurs_at(rest, from, i) by {
            if occurs_at(rest, from, i) {
                assert(rest.subrange(i, i + from.len()) =~= s.subrange(i + 1, i + 1 + from.len()));
                assert(occurs_at(s, from, i + 1));
            }
        }
        lemma_replace_absent(rest, from, to);
        assert(seq![s[0]] + rest =~= s);
    }
}

} // verus!
