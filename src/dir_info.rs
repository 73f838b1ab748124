//! Directory declarations: validation into normalized records, and the
//! rendering of a record into rpm file options.
use vstd::prelude::*;

use crate::backend::{
    caps_accepted, dir_mode, dir_raw_mode, finish, options_at, with_caps, with_group, with_mode,
    with_user, DirAttrs, DirOptions,
};
use crate::error::ConfigError;
use crate::mode::{octal_mode, parse_octal_mode, DEFAULT_MODE};
use crate::value::{lookup, table_get, text_of, EntryValue, FieldValue};

verus! {

/// A validated directory declaration.
#[derive(Debug)]
pub struct DirInfo {
    /// Position of the declaration in its list.
    pub idx: usize,
    /// Path of the directory inside the package.
    pub dir: String,
    pub user: Option<String>,
    pub group: Option<String>,
    /// Permission bits, at most 0o777.
    pub mode: u16,
    /// Capability string handed to rpm unchecked.
    pub caps: Option<String>,
}

/// The mathematical content of a [`DirInfo`].
pub struct DirInfoView {
    pub idx: usize,
    pub dir: Seq<char>,
    pub user: Option<Seq<char>>,
    pub group: Option<Seq<char>>,
    pub mode: u16,
    pub caps: Option<Seq<char>>,
}

pub open spec fn opt_view(o: Option<String>) -> Option<Seq<char>> {
    match o {
        Some(s) => Some(s@),
        None => None,
    }
}

impl View for DirInfo {
    type V = DirInfoView;

    open spec fn view(&self) -> DirInfoView {
        DirInfoView {
            idx: self.idx,
            dir: self.dir@,
            user: opt_view(self.user),
            group: opt_view(self.group),
            mode: self.mode,
            caps: opt_view(self.caps),
        }
    }
}

/// An optional text field is acceptable when it is absent or holds text.
pub open spec fn field_ok(f: Option<FieldValue>) -> bool {
    match f {
        Some(v) => text_of(v) is Some,
        None => true,
    }
}

/// The text of an optional field, `None` where it is absent.
pub open spec fn field_text(f: Option<FieldValue>) -> Option<Seq<char>> {
    match f {
        Some(v) => text_of(v),
        None => None,
    }
}

/// The outcome of validating the table of entry `i`. Fields are checked in
/// the order dir, user, group, mode, caps; the first failure is reported.
pub open spec fn parse_table(i: usize, t: Seq<(String, FieldValue)>) -> Result<
    DirInfoView,
    ConfigError,
> {
    let dir = lookup(t, "dir"@);
    let user = lookup(t, "user"@);
    let group = lookup(t, "group"@);
    let mode = lookup(t, "mode"@);
    let caps = lookup(t, "caps"@);
    if dir is None {
        Err(ConfigError::DirsMissing(i, "dir"))
    } else if !field_ok(dir) {
        Err(ConfigError::DirsWrongType(i, "dest", "string"))
    } else if !field_ok(user) {
        Err(ConfigError::DirsWrongType(i, "user", "string"))
    } else if !field_ok(group) {
        Err(ConfigError::DirsWrongType(i, "group", "string"))
    } else if !field_ok(mode) {
        Err(ConfigError::DirsWrongType(i, "mode", "string"))
    } else if mode is Some && octal_mode(field_text(mode)->0) is None {
        Err(ConfigError::DirsWrongType(i, "mode", "oct-string"))
    } else if !field_ok(caps) {
        Err(ConfigError::DirsWrongType(i, "caps", "string"))
    } else {
        Ok(
            DirInfoView {
                idx: i,
                dir: field_text(dir)->0,
                user: field_text(user),
                group: field_text(group),
                mode: if mode is Some {
                    octal_mode(field_text(mode)->0)->0
                } else {
                    DEFAULT_MODE
                },
                caps: field_text(caps),
            },
        )
    }
}

/// The outcome of validating entry `i`.
pub open spec fn parse_entry(i: usize, e: EntryValue) -> Result<DirInfoView, ConfigError> {
    match e {
        EntryValue::Table(t) => parse_table(i, t@),
        EntryValue::Other => Err(ConfigError::DirsWrongBaseType(i)),
    }
}

/// The outcome of validating a whole list: every record in order, or the
/// error of the first entry that fails.
pub open spec fn parse_all(vs: Seq<EntryValue>) -> Result<Seq<DirInfoView>, ConfigError>
    decreases vs.len(),
{
    if vs.len() == 0 {
        Ok(Seq::empty())
    } else {
        match parse_all(vs.drop_last()) {
            Ok(ds) => match parse_entry((vs.len() - 1) as usize, vs.last()) {
                Ok(d) => Ok(ds.push(d)),
                Err(e) => Err(e),
            },
            Err(e) => Err(e),
        }
    }
}

/// The attributes that rendering a record sets: its path, a directory mode
/// with its permission bits, and its owner, group and capabilities.
pub open spec fn rendered(d: DirInfoView) -> DirAttrs {
    DirAttrs {
        dest: d.dir,
        raw_mode: dir_raw_mode(d.mode),
        user: d.user,
        group: d.group,
        caps: d.caps,
    }
}

/// Once a prefix of the list fails, the whole list fails with the same error.
pub proof fn lemma_error_persists(vs: Seq<EntryValue>, k: int)
    requires
        0 <= k <= vs.len(),
        parse_all(vs.subrange(0, k)) is Err,
    ensures
        parse_all(vs) == parse_all(vs.subrange(0, k)),
    decreases vs.len(),
{
    if k == vs.len() {
        assert(vs.subrange(0, k) =~= vs);
    } else {
        let p = vs.drop_last();
        assert(p.subrange(0, k) =~= vs.subrange(0, k));
        lemma_error_persists(p, k);
    }
}

/// When every entry before `k` is valid, the list up to `k` parses.
proof fn lemma_prefix_ok(vs: Seq<EntryValue>, k: int)
    requires
        0 <= k <= vs.len(),
        forall|j: int| 0 <= j < k ==> #[trigger] parse_entry(j as usize, vs[j]) is Ok,
    ensures
        parse_all(vs.subrange(0, k)) is Ok,
    decreases k,
{
    let p = vs.subrange(0, k);
    if k > 0 {
        assert(p.drop_last() =~= vs.subrange(0, k - 1));
        assert(parse_entry((k - 1) as usize, vs[k - 1]) is Ok);
        lemma_prefix_ok(vs, k - 1);
    }
}

/// Validation fails fast: where entry `k` is the first invalid one, the list
/// fails with exactly the error of entry `k`, whatever follows it.
pub proof fn lemma_first_invalid_entry(vs: Seq<EntryValue>, k: int)
    requires
        0 <= k < vs.len(),
        forall|j: int| 0 <= j < k ==> #[trigger] parse_entry(j as usize, vs[j]) is Ok,
        parse_entry(k as usize, vs[k]) is Err,
    ensures
        parse_all(vs) == Err::<Seq<DirInfoView>, ConfigError>(parse_entry(k as usize, vs[k])->Err_0),
{
    lemma_prefix_ok(vs, k);
    let p = vs.subrange(0, k + 1);
    assert(p.drop_last() =~= vs.subrange(0, k));
    assert(p.last() == vs[k]);
    lemma_error_persists(vs, k + 1);
}

/// A declaration without `dir`, after valid entries only, makes the list fail
/// with a missing-field error for `dir` at its index.
pub proof fn lemma_missing_dir(vs: Seq<EntryValue>, k: int)
    requires
        0 <= k < vs.len(),
        forall|j: int| 0 <= j < k ==> #[trigger] parse_entry(j as usize, vs[j]) is Ok,
        vs[k] is Table,
        lookup(vs[k]->Table_0@, "dir"@) is None,
    ensures
        parse_all(vs) == Err::<Seq<DirInfoView>, ConfigError>(
            ConfigError::DirsMissing(k as usize, "dir"),
        ),
{
    lemma_first_invalid_entry(vs, k);
}

/// An entry that is not a table, after valid entries only, makes the list
/// fail with a base-type error at its index.
pub proof fn lemma_not_a_table(vs: Seq<EntryValue>, k: int)
    requires
        0 <= k < vs.len(),
        forall|j: int| 0 <= j < k ==> #[trigger] parse_entry(j as usize, vs[j]) is Ok,
        vs[k] is Other,
    ensures
        parse_all(vs) == Err::<Seq<DirInfoView>, ConfigError>(
            ConfigError::DirsWrongBaseType(k as usize),
        ),
{
    lemma_first_invalid_entry(vs, k);
}

/// Of two entries where the first is invalid, only the first is reported:
/// the outcome does not depend on the second.
pub proof fn lemma_first_error_wins(first: EntryValue, second: EntryValue)
    requires
        parse_entry(0, first) is Err,
    ensures
        parse_all(seq![first, second]) == Err::<Seq<DirInfoView>, ConfigError>(
            parse_entry(0, first)->Err_0,
        ),
{
    lemma_first_invalid_entry(seq![first, second], 0);
}

/// A valid list gives one record per entry, in input order: record `i` has
/// index `i`, the path given by entry `i`'s `dir`, and permission bits of at
/// most 0o777.
pub proof fn lemma_records_follow_entries(vs: Seq<EntryValue>)
    requires
        parse_all(vs) is Ok,
    ensures
        parse_all(vs)->Ok_0.len() == vs.len(),
        forall|i: int|
            0 <= i < vs.len() ==> {
                let d = #[trigger] parse_all(vs)->Ok_0[i];
                &&& vs[i] is Table
                &&& d.idx == i as usize
                &&& Some(d.dir) == field_text(lookup(vs[i]->Table_0@, "dir"@))
                &&& d.mode <= 0o777
            },
    decreases vs.len(),
{
    if vs.len() > 0 {
        let p = vs.drop_last();
        lemma_records_follow_entries(p);
        let n = vs.len() - 1;
        let e = vs.last();
        assert(e is Table);
        let t = e->Table_0@;
        let d = parse_table(n as usize, t);
        let mode = lookup(t, "mode"@);
        if mode is Some {
        }
        assert forall|i: int| 0 <= i < vs.len() implies {
            let d = #[trigger] parse_all(vs)->Ok_0[i];
            &&& vs[i] is Table
            &&& d.idx == i as usize
            &&& Some(d.dir) == field_text(lookup(vs[i]->Table_0@, "dir"@))
            &&& d.mode <= 0o777
        } by {
            if i < n {
                assert(vs[i] == p[i]);
                assert(parse_all(vs)->Ok_0[i] == parse_all(p)->Ok_0[i]);
            }
        }
    }
}

/// Rendering the records of a valid list keeps the input order: the
/// attributes rendered from record `i` carry the path given by entry `i`'s
/// `dir`, and a directory mode with the record's permission bits.
pub proof fn lemma_rendered_paths_follow_entries(vs: Seq<EntryValue>)
    requires
        parse_all(vs) is Ok,
    ensures
        forall|i: int|
            0 <= i < vs.len() ==> {
                let a = rendered(#[trigger] parse_all(vs)->Ok_0[i]);
                &&& Some(a.dest) == field_text(lookup(vs[i]->Table_0@, "dir"@))
                &&& a.raw_mode == dir_raw_mode(parse_all(vs)->Ok_0[i].mode)
            },
{
    lemma_records_follow_entries(vs);
}

/// Without a `mode` field, a valid entry gets the permission bits 0o755.
pub proof fn lemma_default_mode(i: usize, t: Seq<(String, FieldValue)>)
    requires
        parse_table(i, t) is Ok,
        lookup(t, "mode"@) is None,
    ensures
        parse_table(i, t)->Ok_0.mode == 0o755,
{
}

/// Reads an optional text field of a table.
fn text_field<'a>(t: &'a Vec<(String, FieldValue)>, idx: usize, key: &'static str) -> (r: Result<
    Option<&'a String>,
    ConfigError,
>)
    ensures
        match r {
            Ok(None) => lookup(t@, key@) is None,
            Ok(Some(s)) => lookup(t@, key@) == Some(FieldValue::Text(*s)),
            Err(e) => !field_ok(lookup(t@, key@)) && e == ConfigError::DirsWrongType(
                idx,
                key,
                "string",
            ),
        },
{
    match table_get(t, key) {
        None => Ok(None),
        Some(FieldValue::Text(s)) => Ok(Some(s)),
        Some(FieldValue::Other) => Err(ConfigError::DirsWrongType(idx, key, "string")),
    }
}

/// Copies an optional string.
fn copy_opt(o: Option<&String>) -> (r: Option<String>)
    ensures
        opt_view(r) == match o {
            Some(s) => Some(s@),
            None => None::<Seq<char>>,
        },
{
    match o {
        Some(s) => Some(s.clone()),
        None => None,
    }
}

impl DirInfo {
    /// Validates entry `idx`.
    fn parse_one(idx: usize, value: &EntryValue) -> (r: Result<DirInfo, ConfigError>)
        ensures
            match r {
                Ok(d) => parse_entry(idx, *value) == Ok::<DirInfoView, ConfigError>(d@),
                Err(e) => parse_entry(idx, *value) == Err::<DirInfoView, ConfigError>(e),
            },
    {
        let t = match value {
            EntryValue::Table(t) => t,
            EntryValue::Other => {
                return Err(ConfigError::DirsWrongBaseType(idx));
            },
        };
        let dir = match table_get(t, "dir") {
            None => {
                return Err(ConfigError::DirsMissing(idx, "dir"));
            },
            Some(FieldValue::Text(s)) => s,
            Some(FieldValue::Other) => {
                return Err(ConfigError::DirsWrongType(idx, "dest", "string"));
            },
        };
        let user = text_field(t, idx, "user")?;
        let group = text_field(t, idx, "group")?;
        let mode = match text_field(t, idx, "mode")? {
            Some(s) => match parse_octal_mode(s.as_str()) {
                Some(v) => v,
                None => {
                    return Err(ConfigError::DirsWrongType(idx, "mode", "oct-string"));
                },
            },
            None => DEFAULT_MODE,
        };
        let caps = text_field(t, idx, "caps")?;
        Ok(
            DirInfo {
                idx,
                dir: dir.clone(),
                user: copy_opt(user),
                group: copy_opt(group),
                mode,
                caps: copy_opt(caps),
            },
        )
    }

    /// Validates a list of declarations. Returns one record per entry, in
    /// order, or the error of the first entry that fails.
    pub fn new(values: &[EntryValue]) -> (r: Result<Vec<DirInfo>, ConfigError>)
        ensures
            match r {
                Ok(ds) => parse_all(values@) == Ok::<Seq<DirInfoView>, ConfigError>(
                    ds@.map_values(|d: DirInfo| d@),
                ),
                Err(e) => parse_all(values@) == Err::<Seq<DirInfoView>, ConfigError>(e),
            },
    {
        let mut dirs: Vec<DirInfo> = Vec::with_capacity(values.len());
        let mut idx: usize = 0;
        assert(values@.subrange(0, 0) =~= Seq::<EntryValue>::empty());
        assert(dirs@.map_values(|d: DirInfo| d@) =~= Seq::<DirInfoView>::empty());
        while idx < values.len()
            invariant
                idx <= values@.len(),
                parse_all(values@.subrange(0, idx as int)) == Ok::<Seq<DirInfoView>, ConfigError>(
                    dirs@.map_values(|d: DirInfo| d@),
                ),
            decreases values@.len() - idx,
        {
            let ghost pre = values@.subrange(0, idx + 1);
            assert(pre.drop_last() =~= values@.subrange(0, idx as int));
            assert(pre.last() == values@[idx as int]);
            let ghost done = dirs@.map_values(|d: DirInfo| d@);
            match DirInfo::parse_one(idx, &values[idx]) {
                Ok(d) => {
                    let ghost dv = d@;
                    dirs.push(d);
                    assert(dirs@.map_values(|d: DirInfo| d@) =~= done.push(dv));
                },
                Err(e) => {
                    proof {
                        lemma_error_persists(values@, idx + 1);
                    }
                    return Err(e);
                },
            }
            idx += 1;
        }
        assert(values@.subrange(0, values@.len() as int) =~= values@);
        Ok(dirs)
    }

    /// Renders the record as rpm file options for an empty directory: the
    /// path, the permission bits as a directory mode, and the owner, group
    /// and capabilities that are set. Fails only where rpm rejects the
    /// capability string, and then names this record's index.
    pub fn generate_rpm_file_options(&self) -> (r: Result<DirOptions, ConfigError>)
        ensures
            match r {
                Ok(o) => (self.caps is None || caps_accepted(self.caps->0@)) && o@ == rendered(
                    self@,
                ),
                Err(e) => self.caps is Some && !caps_accepted(self.caps->0@)
                    && e is DirsInvalidCaps && e->DirsInvalidCaps_0 == self.idx,
            },
    {
        let mut option = options_at(self.dir.as_str());
        option = with_mode(option, dir_mode(self.mode));
        if let Some(user) = &self.user {
            option = with_user(option, user.as_str());
        }
        if let Some(group) = &self.group {
            option = with_group(option, group.as_str());
        }
        if let Some(caps) = &self.caps {
            option = match with_caps(option, caps.as_str()) {
                Ok(o) => o,
                Err(err) => {
                    return Err(ConfigError::DirsInvalidCaps(self.idx, err));
                },
            };
        }
        Ok(finish(option))
    }
}

} // verus!
