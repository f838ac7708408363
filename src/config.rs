use vstd::prelude::*;

verus! {

/// A value of a TOML document, as far as the configuration reads it. Scalars other than strings
/// (numbers, booleans, dates) keep only their TOML text.
#[derive(Debug)]
pub enum TomlValue {
    Str(String),
    Array(Vec<TomlValue>),
    Table(Vec<(String, TomlValue)>),
    Other(String),
}

/// Which of the two tables a configuration holds.
#[derive(Debug, Clone, Copy, PartialEq, Eq, Structural)]
pub enum PolicyKind {
    Allow,
    Ignore,
}

/// Why a configuration was set aside. Positions count the entries of the `allow` or `ignore`
/// table, then the elements of an array.
#[derive(Debug, Clone, Copy, PartialEq, Eq, Structural)]
pub enum ConfigIssue {
    /// The document holds both an `allow` and an `ignore` value.
    BothAllowAndIgnore,
    /// The `allow` or `ignore` value is not a table.
    NotATable(PolicyKind),
    /// The table's entry at this position has a key other than `directories` and `packages`.
    UnexpectedKey(usize),
    /// The table's entry at this position is not an array.
    NotAnArray(usize),
    /// The table's entry at the first position is an array whose element at the second
    /// position is not a string.
    NotAString(usize, usize),
}

/// A configuration that was read whole: the directories and packages it lists.
#[derive(Debug, Clone)]
pub struct Policy {
    pub kind: PolicyKind,
    pub directories: Vec<String>,
    pub packages: Vec<String>,
}

pub open spec fn string_views(v: Seq<String>) -> Seq<Seq<char>> {
    v.map_values(|s: String| s@)
}

/// The strings of `v`, when `v` is an array of strings.
pub open spec fn strings_of(v: TomlValue) -> Option<Seq<Seq<char>>> {
    match v {
        TomlValue::Array(a) => if forall|i: int| 0 <= i < a@.len() ==> (#[trigger] a@[i]) is Str {
            Some(Seq::new(a@.len(), |i: int| a@[i]->Str_0@))
        } else {
            None
        },
        _ => None,
    }
}

/// Why the value of the table entry at position `index` is not an array of strings.
pub open spec fn array_issue(v: TomlValue, index: usize) -> Option<ConfigIssue> {
    match v {
        TomlValue::Array(a) => if exists|i: int| 0 <= i < a@.len() && !((#[trigger] a@[i]) is Str) {
            let j = choose|j: int|
                0 <= j < a@.len() && !(a@[j] is Str) && forall|k: int|
                    0 <= k < j ==> (#[trigger] a@[k]) is Str;
            Some(ConfigIssue::NotAString(index, j as usize))
        } else {
            None
        },
        _ => Some(ConfigIssue::NotAnArray(index)),
    }
}


/// The value of the first entry of `t` whose key is `key`.
pub open spec fn find(t: Seq<(String, TomlValue)>, key: Seq<char>) -> Option<TomlValue>
    decreases t.len(),
{
    if t.len() == 0 {
        None
    } else if t[0].0@ == key {
        Some(t[0].1)
    } else {
        find(t.subrange(1, t.len() as int), key)
    }
}

/// Why the entry at position `i` of an `allow` or `ignore` table is refused, if it is.
pub open spec fn entry_issue(t: Seq<(String, TomlValue)>, i: int) -> Option<ConfigIssue> {
    if t[i].0@ == "directories"@ || t[i].0@ == "packages"@ {
        array_issue(t[i].1, i as usize)
    } else {
        Some(ConfigIssue::UnexpectedKey(i as usize))
    }
}

/// The issue of the first refused entry of `t`.
pub open spec fn first_issue(t: Seq<(String, TomlValue)>) -> Option<ConfigIssue>
    decreases t.len(),
{
    if t.len() == 0 {
        None
    } else {
        match first_issue(t.drop_last()) {
            Some(e) => Some(e),
            None => entry_issue(t, t.len() - 1),
        }
    }
}

/// The strings listed under `key` in a table none of whose entries is refused: those of the
/// last entry with that key, or none.
pub open spec fn listed(t: Seq<(String, TomlValue)>, key: Seq<char>) -> Seq<Seq<char>>
    decreases t.len(),
{
    if t.len() == 0 {
        Seq::empty()
    } else if t.last().0@ == key {
        match strings_of(t.last().1) {
            Some(v) => v,
            None => Seq::empty(),
        }
    } else {
        listed(t.drop_last(), key)
    }
}

/// The value stored under `key` in a document.
pub fn table_get<'a>(t: &'a Vec<(String, TomlValue)>, key: &str) -> (r: Option<&'a TomlValue>)
    ensures
        match r {
            Some(v) => find(t@, key@) == Some(*v),
            None => find(t@, key@) is None,
        },
{
    let k = key.to_owned();
    let mut i: usize = 0;
    assert(t@.subrange(0, t@.len() as int) == t@);
    while i < t.len()
        invariant
            i <= t@.len(),
            k@ == key@,
            find(t@, key@) == find(t@.subrange(i as int, t@.len() as int), key@),
        decreases t@.len() - i,
    {
        let ghost rest = t@.subrange(i as int, t@.len() as int);
        assert(rest.subrange(1, rest.len() as int) == t@.subrange(i + 1, t@.len() as int));
        if t[i].0 == k {
            return Some(&t[i].1);
        }
        i = i + 1;
    }
    None
}


/// Reads the value of the table entry at position `index` as an array of strings.
pub fn as_array_of_strings(index: usize, value: &TomlValue) -> (r: Result<Vec<String>, ConfigIssue>)
    ensures
        r is Ok <==> strings_of(*value) is Some,
        r matches Ok(v) ==> Some(string_views(v@)) == strings_of(*value),
        r matches Err(e) ==> Some(e) == array_issue(*value, index),
{
    match value {
        TomlValue::Array(array) => {
            let mut strings: Vec<String> = Vec::with_capacity(array.len());
            let mut i: usize = 0;
            while i < array.len()
                invariant
                    *value == TomlValue::Array(*array),
                    i <= array@.len(),
                    forall|k: int| 0 <= k < i ==> (#[trigger] array@[k]) is Str,
                    string_views(strings@) == Seq::new(i as nat, |k: int| array@[k]->Str_0@),
                decreases array@.len() - i,
            {
                let element = &array[i];
                match element {
                    TomlValue::Str(s) => {
                        let ghost before = strings@;
                        let c = s.clone();
                        assert(c@ == array@[i as int]->Str_0@);
                        strings.push(c);
                        assert(string_views(strings@) =~= string_views(before).push(c@));
                        assert(string_views(strings@) =~= Seq::new(
                            (i + 1) as nat,
                            |k: int| array@[k]->Str_0@,
                        ));
                    },
                    _ => {
                        assert(!(array@[i as int] is Str));
                        let ghost j = choose|j: int|
                            0 <= j < array@.len() && !(array@[j] is Str) && forall|k: int|
                                0 <= k < j ==> (#[trigger] array@[k]) is Str;
                        assert(j == i) by {
                            if j < i {
                                assert(array@[j] is Str);
                            } else if j > i {
                                assert(array@[i as int] is Str);
                            }
                        }
                        return Err(ConfigIssue::NotAString(index, i));
                    },
                }
                i = i + 1;
            }
            assert(string_views(strings@) =~= Seq::new(
                array@.len(),
                |k: int| array@[k]->Str_0@,
            ));
            Ok(strings)
        },
        _ => Err(ConfigIssue::NotAnArray(index)),
    }
}

/// What a configuration says, when it was read whole.
pub struct PolicyView {
    pub kind: PolicyKind,
    pub directories: Seq<Seq<char>>,
    pub packages: Seq<Seq<char>>,
}

impl View for Policy {
    type V = PolicyView;

    open spec fn view(&self) -> PolicyView {
        PolicyView {
            kind: self.kind,
            directories: string_views(self.directories@),
            packages: string_views(self.packages@),
        }
    }
}

/// The `allow` or `ignore` table of a document, with its kind; `None` when there is neither.
pub open spec fn section_of(doc: Seq<(String, TomlValue)>) -> Result<
    Option<(PolicyKind, Seq<(String, TomlValue)>)>,
    ConfigIssue,
> {
    match (find(doc, "allow"@), find(doc, "ignore"@)) {
        (Some(_), Some(_)) => Err(ConfigIssue::BothAllowAndIgnore),
        (Some(TomlValue::Table(t)), None) => Ok(Some((PolicyKind::Allow, t@))),
        (Some(_), None) => Err(ConfigIssue::NotATable(PolicyKind::Allow)),
        (None, Some(TomlValue::Table(t))) => Ok(Some((PolicyKind::Ignore, t@))),
        (None, Some(_)) => Err(ConfigIssue::NotATable(PolicyKind::Ignore)),
        (None, None) => Ok(None),
    }
}

/// The policy of an `allow` or `ignore` table, or the issue of its first refused entry.
pub open spec fn table_policy(kind: PolicyKind, t: Seq<(String, TomlValue)>) -> Result<
    PolicyView,
    ConfigIssue,
> {
    match first_issue(t) {
        Some(e) => Err(e),
        None => Ok(
            PolicyView {
                kind,
                directories: listed(t, "directories"@),
                packages: listed(t, "packages"@),
            },
        ),
    }
}

/// What a document configures: a policy, no policy, or the issue for which it is set aside.
pub open spec fn policy_of(doc: Seq<(String, TomlValue)>) -> Result<Option<PolicyView>, ConfigIssue> {
    match section_of(doc) {
        Err(e) => Err(e),
        Ok(None) => Ok(None),
        Ok(Some((kind, t))) => match table_policy(kind, t) {
            Err(e) => Err(e),
            Ok(p) => Ok(Some(p)),
        },
    }
}

proof fn lemma_first_issue_stays(t: Seq<(String, TomlValue)>, n: int)
    requires
        0 <= n <= t.len(),
        first_issue(t.take(n)) is Some,
    ensures
        first_issue(t) == first_issue(t.take(n)),
    decreases t.len(),
{
    if t.len() > n {
        assert(t.drop_last().take(n) == t.take(n));
        lemma_first_issue_stays(t.drop_last(), n);
    } else {
        assert(t.take(n) == t);
    }
}

/// Reads the entries of an `allow` or `ignore` table: `directories` and `packages`, each an
/// array of strings. Any other entry sets the whole table aside.
pub fn parse_table_entries(kind: PolicyKind, t: &Vec<(String, TomlValue)>) -> (r: Result<
    Policy,
    ConfigIssue,
>)
    ensures
        match r {
            Ok(p) => table_policy(kind, t@) == Ok::<PolicyView, ConfigIssue>(p@),
            Err(e) => table_policy(kind, t@) == Err::<PolicyView, ConfigIssue>(e),
        },
{
    let directories_key = "directories".to_owned();
    let packages_key = "packages".to_owned();
    proof {
        reveal_strlit("directories");
        reveal_strlit("packages");
        assert("directories"@.len() != "packages"@.len());
    }
    let mut directories: Vec<String> = Vec::new();
    let mut packages: Vec<String> = Vec::new();
    let mut i: usize = 0;
    assert(t@.take(0) == Seq::<(String, TomlValue)>::empty());
    while i < t.len()
        invariant
            i <= t@.len(),
            directories_key@ == "directories"@,
            packages_key@ == "packages"@,
            "directories"@ != "packages"@,
            first_issue(t@.take(i as int)) is None,
            string_views(directories@) == listed(t@.take(i as int), "directories"@),
            string_views(packages@) == listed(t@.take(i as int), "packages"@),
        decreases t@.len() - i,
    {
        let ghost next = t@.take(i + 1);
        assert(next.drop_last() == t@.take(i as int));
        assert(next.last() == t@[i as int]);
        let key = &t[i].0;
        if *key == directories_key {
            match as_array_of_strings(i, &t[i].1) {
                Ok(v) => {
                    directories = v;
                },
                Err(e) => {
                    proof {
                        lemma_first_issue_stays(t@, i + 1);
                    }
                    return Err(e);
                },
            }
        } else if *key == packages_key {
            match as_array_of_strings(i, &t[i].1) {
                Ok(v) => {
                    packages = v;
                },
                Err(e) => {
                    proof {
                        lemma_first_issue_stays(t@, i + 1);
                    }
                    return Err(e);
                },
            }
        } else {
            proof {
                lemma_first_issue_stays(t@, i + 1);
            }
            return Err(ConfigIssue::UnexpectedKey(i));
        }
        i = i + 1;
    }
    assert(t@.take(t@.len() as int) == t@);
    Ok(Policy { kind, directories, packages })
}

proof fn lemma_refused_entry_found(t: Seq<(String, TomlValue)>, i: int)
    requires
        0 <= i < t.len(),
        entry_issue(t, i) is Some,
    ensures
        first_issue(t) is Some,
    decreases t.len(),
{
    if i < t.len() - 1 {
        assert(t.drop_last()[i] == t[i]);
        lemma_refused_entry_found(t.drop_last(), i);
    }
}

/// A document with both an `allow` and an `ignore` value puts no policy in force, just as no
/// document does.
pub proof fn lemma_both_tables_mean_no_policy(doc: Seq<(String, TomlValue)>)
    requires
        find(doc, "allow"@) is Some,
        find(doc, "ignore"@) is Some,
    ensures
        policy_of(doc) == Err::<Option<PolicyView>, ConfigIssue>(ConfigIssue::BothAllowAndIgnore),
        policy_in_force(Some(doc)) == policy_in_force(None),
{
}

/// When the `directories` or `packages` array of the `allow` or `ignore` table holds an element
/// that is not a string, no policy is in force: the whole document is set aside, not only that
/// entry.
pub proof fn lemma_non_string_element_means_no_policy(
    doc: Seq<(String, TomlValue)>,
    kind: PolicyKind,
    t: Seq<(String, TomlValue)>,
    i: int,
    j: int,
)
    requires
        section_of(doc) == Ok::<_, ConfigIssue>(Some((kind, t))),
        0 <= i < t.len(),
        t[i].0@ == "directories"@ || t[i].0@ == "packages"@,
        t[i].1 is Array,
        0 <= j < t[i].1->Array_0@.len(),
        !(t[i].1->Array_0@[j] is Str),
    ensures
        policy_of(doc) is Err,
        policy_in_force(Some(doc)) is None,
{
    assert(array_issue(t[i].1, i as usize) is Some);
    lemma_refused_entry_found(t, i);
}

/// Finds the one `allow` or `ignore` table of a document. A document may hold one or the other,
/// not both; either must be a table.
pub fn allow_or_ignore_table(doc: &Vec<(String, TomlValue)>) -> (r: Result<
    Option<(PolicyKind, &Vec<(String, TomlValue)>)>,
    ConfigIssue,
>)
    ensures
        match r {
            Ok(Some((kind, t))) => section_of(doc@) == Ok::<_, ConfigIssue>(Some((kind, t@))),
            Ok(None) => section_of(doc@) == Ok::<_, ConfigIssue>(
                None::<(PolicyKind, Seq<(String, TomlValue)>)>,
            ),
            Err(e) => section_of(doc@) == Err::<
                Option<(PolicyKind, Seq<(String, TomlValue)>)>,
                ConfigIssue,
            >(e),
        },
{
    let allow_value = table_get(doc, "allow");
    let ignore_value = table_get(doc, "ignore");
    match (allow_value, ignore_value) {
        (Some(_), Some(_)) => Err(ConfigIssue::BothAllowAndIgnore),
        (Some(TomlValue::Table(t)), None) => Ok(Some((PolicyKind::Allow, t))),
        (Some(_), None) => Err(ConfigIssue::NotATable(PolicyKind::Allow)),
        (None, Some(TomlValue::Table(t))) => Ok(Some((PolicyKind::Ignore, t))),
        (None, Some(_)) => Err(ConfigIssue::NotATable(PolicyKind::Ignore)),
        (None, None) => Ok(None),
    }
}

/// Reads the policy of a configuration document.
pub fn policy_from_document(doc: &Vec<(String, TomlValue)>) -> (r: Result<
    Option<Policy>,
    ConfigIssue,
>)
    ensures
        match r {
            Ok(Some(p)) => policy_of(doc@) == Ok::<_, ConfigIssue>(Some(p@)),
            Ok(None) => policy_of(doc@) == Ok::<_, ConfigIssue>(None::<PolicyView>),
            Err(e) => policy_of(doc@) == Err::<Option<PolicyView>, ConfigIssue>(e),
        },
{
    match allow_or_ignore_table(doc) {
        Err(e) => Err(e),
        Ok(None) => Ok(None),
        Ok(Some((kind, t))) => match parse_table_entries(kind, t) {
            Err(e) => Err(e),
            Ok(p) => Ok(Some(p)),
        },
    }
}

/// The policy in force: the one a document configures when it was read whole; none when there
/// is no document or it was set aside.
pub open spec fn policy_in_force(doc: Option<Seq<(String, TomlValue)>>) -> Option<PolicyView> {
    match doc {
        None => None,
        Some(d) => match policy_of(d) {
            Ok(Some(p)) => Some(p),
            _ => None,
        },
    }
}

pub open spec fn document_view(doc: Option<&Vec<(String, TomlValue)>>) -> Option<
    Seq<(String, TomlValue)>,
> {
    match doc {
        Some(d) => Some(d@),
        None => None,
    }
}

/// Loads the policy in force from the configuration document, if there is one. The issue for
/// which a document is set aside comes back beside the (then absent) policy.
pub fn load_policy(doc: Option<&Vec<(String, TomlValue)>>) -> (r: (Option<Policy>, Option<ConfigIssue>))
    ensures
        match r.0 {
            Some(p) => policy_in_force(document_view(doc)) == Some(p@),
            None => policy_in_force(document_view(doc)) is None,
        },
        match r.1 {
            Some(e) => doc is Some && policy_of(doc->0@) == Err::<Option<PolicyView>, ConfigIssue>(e),
            None => doc is None || policy_of(doc->0@) is Ok,
        },
{
    match doc {
        None => (None, None),
        Some(d) => match policy_from_document(d) {
            Ok(p) => (p, None),
            Err(e) => (None, Some(e)),
        },
    }
}

/// The directories that the policy in force lists; `None` when no policy is in force.
pub fn allowed_directories(policy: &Option<Policy>) -> (r: Option<&Vec<String>>)
    ensures
        match r {
            Some(v) => policy is Some && string_views(v@) == policy->0@.directories,
            None => policy is None,
        },
{
    match policy {
        Some(p) => Some(&p.directories),
        None => None,
    }
}

/// The packages that the policy in force lists; `None` when no policy is in force.
pub fn allowed_packages(policy: &Option<Policy>) -> (r: Option<&Vec<String>>)
    ensures
        match r {
            Some(v) => policy is Some && string_views(v@) == policy->0@.packages,
            None => policy is None,
        },
{
    match policy {
        Some(p) => Some(&p.packages),
        None => None,
    }
}

} // verus!
