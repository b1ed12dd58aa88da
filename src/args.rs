use vstd::prelude::*;
use vstd::string::*;

verus! {

/// The text `key=value` that passes one configuration variable to the tool.
pub open spec fn render_variable(key: Seq<char>, value: Seq<char>) -> Seq<char> {
    key + "="@ + value
}

/// The keys of `entries`, in order.
pub open spec fn keys_of(entries: Seq<(String, String)>) -> Seq<Seq<char>> {
    entries.map_values(|e: (String, String)| e.0@)
}

/// The mapping that `entries` hold: each key to the value of its last entry.
pub open spec fn variables_map(entries: Seq<(String, String)>) -> Map<Seq<char>, Seq<char>>
    decreases entries.len(),
{
    if entries.len() == 0 {
        Map::empty()
    } else {
        let last = entries.last();
        variables_map(entries.drop_last()).insert(last.0@, last.1@)
    }
}

/// Where no key stands twice in `entries`, the mapping holds exactly their
/// keys, each to the value of its entry.
pub proof fn lemma_variables_map(entries: Seq<(String, String)>)
    requires
        keys_of(entries).no_duplicates(),
    ensures
        forall|k: Seq<char>|
            #[trigger] variables_map(entries).contains_key(k) <==> keys_of(entries).contains(k),
        forall|i: int|
            0 <= i < entries.len() ==> #[trigger] variables_map(entries)[entries[i].0@]
                == entries[i].1@,
    decreases entries.len(),
{
    if entries.len() > 0 {
        let rest = entries.drop_last();
        let n = entries.len() - 1;
        let last = entries[n];
        let ks = keys_of(entries);
        assert(keys_of(rest) =~= ks.drop_last());
        assert(ks[n] == last.0@);
        assert forall|i: int, j: int|
            0 <= i < keys_of(rest).len() && 0 <= j < keys_of(rest).len() && i != j implies
            keys_of(rest)[i] != keys_of(rest)[j] by {
            assert(ks[i] != ks[j]);
        }
        lemma_variables_map(rest);
        assert(variables_map(entries) == variables_map(rest).insert(last.0@, last.1@));
        assert forall|k: Seq<char>|
            #[trigger] variables_map(entries).contains_key(k) <==> ks.contains(k) by {
            if ks.contains(k) {
                let j = choose|j: int| 0 <= j < ks.len() && ks[j] == k;
                if j < n {
                    assert(keys_of(rest)[j] == k);
                }
            }
            if keys_of(rest).contains(k) {
                let j = choose|j: int| 0 <= j < keys_of(rest).len() && keys_of(rest)[j] == k;
                assert(ks[j] == k);
            }
        }
        assert forall|i: int| 0 <= i < entries.len() implies #[trigger] variables_map(
            entries,
        )[entries[i].0@] == entries[i].1@ by {
            if i < n {
                assert(ks[i] == entries[i].0@);
                assert(ks[i] != ks[n]);
                assert(rest[i] == entries[i]);
                assert(keys_of(rest)[i] == rest[i].0@);
                assert(variables_map(rest)[rest[i].0@] == rest[i].1@);
            }
        }
    }
}

/// Giving the entry at `i` a new value, under the same key, sets that key's
/// value in the mapping.
proof fn lemma_replace_value(
    entries: Seq<(String, String)>,
    i: int,
    updated: Seq<(String, String)>,
)
    requires
        keys_of(entries).no_duplicates(),
        0 <= i < entries.len(),
        updated.len() == entries.len(),
        updated[i].0@ == entries[i].0@,
        forall|j: int| 0 <= j < entries.len() && j != i ==> updated[j] == entries[j],
    ensures
        keys_of(updated).no_duplicates(),
        variables_map(updated) == variables_map(entries).insert(updated[i].0@, updated[i].1@),
{
    let k = updated[i].0@;
    let v = updated[i].1@;
    assert(keys_of(updated) =~= keys_of(entries)) by {
        assert forall|j: int| 0 <= j < entries.len() implies keys_of(updated)[j]
            == keys_of(entries)[j] by {
            if j != i {
                assert(updated[j] == entries[j]);
            }
        }
    }
    lemma_variables_map(entries);
    lemma_variables_map(updated);
    let old_map = variables_map(entries);
    let new_map = variables_map(updated);
    assert(keys_of(entries)[i] == k);
    assert(old_map.contains_key(k));
    assert forall|q: Seq<char>| new_map.contains_key(q) implies #[trigger] new_map[q]
        == old_map.insert(k, v)[q] by {
        let j = choose|j: int| 0 <= j < keys_of(updated).len() && keys_of(updated)[j] == q;
        assert(new_map[updated[j].0@] == updated[j].1@);
        if j != i {
            assert(updated[j] == entries[j]);
            assert(keys_of(entries)[j] != keys_of(entries)[i]);
            assert(old_map[entries[j].0@] == entries[j].1@);
        }
    }
    assert(new_map =~= old_map.insert(k, v));
}

/// Whether `lines` renders `entries`: one `key=value` text per entry, in
/// the order of the entries.
pub open spec fn renders(entries: Seq<(String, String)>, lines: Seq<Seq<char>>) -> bool {
    &&& lines.len() == entries.len()
    &&& forall|i: int|
        0 <= i < lines.len() ==> #[trigger] lines[i] == render_variable(
            entries[i].0@,
            entries[i].1@,
        )
}

/// Where no key stands twice, the rendering holds one text per variable of
/// the mapping, and each variable's `key=value` stands in it.
pub proof fn lemma_rendering_covers_variables(args: Args, lines: Seq<Seq<char>>)
    requires
        args.wf(),
        renders(args.config_variables@, lines),
    ensures
        lines.len() == args.variables().dom().len(),
        forall|k: Seq<char>|
            #[trigger] args.variables().contains_key(k) ==> lines.contains(
                render_variable(k, args.variables()[k]),
            ),
        forall|i: int|
            0 <= i < lines.len() ==> {
                let k = #[trigger] args.config_variables@[i].0@;
                args.variables().contains_key(k) && lines[i] == render_variable(
                    k,
                    args.variables()[k],
                )
            },
{
    let entries = args.config_variables@;
    let ks = keys_of(entries);
    lemma_variables_map(entries);
    assert(args.variables().dom() =~= ks.to_set());
    ks.unique_seq_to_set();
    assert forall|k: Seq<char>| #[trigger] args.variables().contains_key(k) implies lines.contains(
        render_variable(k, args.variables()[k]),
    ) by {
        let j = choose|j: int| 0 <= j < ks.len() && ks[j] == k;
        assert(lines[j] == render_variable(entries[j].0@, entries[j].1@));
    }
    assert forall|i: int| 0 <= i < lines.len() implies {
        let k = #[trigger] args.config_variables@[i].0@;
        args.variables().contains_key(k) && lines[i] == render_variable(k, args.variables()[k])
    } by {
        assert(ks[i] == entries[i].0@);
    }
}

/// The settings with which the OCR tool is run.
#[derive(Clone, Debug, PartialEq)]
pub struct Args {
    /// Where the tool's executable is, if not the default.
    pub executable: Option<String>,
    /// Where the tool's language data is, if not the default.
    pub tessdata_dir: Option<String>,
    /// The language code.
    pub lang: String,
    /// Engine-specific variables, as key and value; each key at most once.
    pub config_variables: Vec<(String, String)>,
    /// The resolution, in dots per inch.
    pub dpi: Option<i32>,
    /// The page-segmentation mode.
    pub psm: Option<i32>,
    /// The OCR-engine mode.
    pub oem: Option<i32>,
}

impl Args {
    /// No key stands twice among the configuration variables.
    pub open spec fn wf(&self) -> bool {
        keys_of(self.config_variables@).no_duplicates()
    }

    /// The configuration variables as a mapping from key to value.
    pub open spec fn variables(&self) -> Map<Seq<char>, Seq<char>> {
        variables_map(self.config_variables@)
    }

    /// Sets the configuration variable `key` to `value`, in place of the
    /// value it had, if any.
    pub fn set_config_variable(&mut self, key: String, value: String)
        requires
            old(self).wf(),
        ensures
            final(self).wf(),
            final(self).variables() == old(self).variables().insert(key@, value@),
            final(self).executable == old(self).executable,
            final(self).tessdata_dir == old(self).tessdata_dir,
            final(self).lang == old(self).lang,
            final(self).dpi == old(self).dpi,
            final(self).psm == old(self).psm,
            final(self).oem == old(self).oem,
    {
        let ghost entries = self.config_variables@;
        let n = self.config_variables.len();
        let mut i: usize = 0;
        while i < n
            invariant
                n == entries.len(),
                *self == *old(self),
                entries == old(self).config_variables@,
                keys_of(entries).no_duplicates(),
                0 <= i <= n,
                forall|j: int| 0 <= j < i ==> entries[j].0@ != key@,
            decreases n - i,
        {
            if self.config_variables[i].0 == key {
                self.config_variables.set(i, (key, value));
                proof {
                    lemma_replace_value(entries, i as int, self.config_variables@);
                }
                return ;
            }
            i = i + 1;
        }
        let ghost k = key@;
        let ghost v = value@;
        self.config_variables.push((key, value));
        proof {
            let pushed = self.config_variables@;
            assert(pushed.drop_last() =~= entries);
            assert(keys_of(pushed) =~= keys_of(entries).push(k));
            assert(!keys_of(entries).contains(k));
        }
    }

    /// The configuration variables as `key=value` texts, one per entry, in
    /// the order of the entries.
    pub fn get_config_variable_args(&self) -> (r: Vec<String>)
        ensures
            renders(self.config_variables@, r@.map_values(|s: String| s@)),
    {
        let mut out: Vec<String> = Vec::new();
        let n = self.config_variables.len();
        let mut i: usize = 0;
        while i < n
            invariant
                n == self.config_variables@.len(),
                0 <= i <= n,
                out@.len() == i,
                forall|j: int|
                    0 <= j < i ==> #[trigger] out@[j]@ == render_variable(
                        self.config_variables@[j].0@,
                        self.config_variables@[j].1@,
                    ),
            decreases n - i,
        {
            let entry = &self.config_variables[i];
            let mut line = entry.0.clone();
            line.append("=");
            line.append(entry.1.as_str());
            out.push(line);
            i = i + 1;
        }
        assert(renders(self.config_variables@, out@.map_values(|s: String| s@)));
        out
    }
}

impl Default for Args {
    /// No overrides, English, no variables, 150 DPI, and mode 3 for both
    /// page segmentation and the engine.
    fn default() -> (r: Self)
        ensures
            r.executable is None,
            r.tessdata_dir is None,
            r.lang@ == "eng"@,
            r.config_variables@.len() == 0,
            r.wf(),
            r.dpi == Some(150i32),
            r.psm == Some(3i32),
            r.oem == Some(3i32),
    {
        Args {
            executable: None,
            tessdata_dir: None,
            lang: String::from_str("eng"),
            config_variables: Vec::new(),
            dpi: Some(150),
            psm: Some(3),
            oem: Some(3),
        }
    }
}

} // verus!
