//! Jailgun run requests: where a work order's request comes from, and the
//! canonical form of its browser account routing.

use vstd::prelude::*;

use crate::domain::{adapter_error, AdapterError};
use crate::jailgun::{check_request_version, request_version_error};
use crate::json::{
    entries_get, entries_get_str, json_get, json_str, lookup, member, set_member, take_member, Json,
};
use crate::text::{concat, decimal, decimal_text, str_eq, texts};

verus! {

/// Every item is a JSON string.
pub open spec fn all_strings(items: Seq<Json>) -> bool {
    forall|k: int| 0 <= k < items.len() ==> (#[trigger] items[k]) is String
}

/// The texts of JSON string items.
pub open spec fn string_texts(items: Seq<Json>) -> Seq<Seq<char>> {
    items.map_values(|j: Json| j->String_0@)
}

/// `k` is the first item that is not a string.
pub open spec fn first_non_string_at(items: Seq<Json>, k: int) -> bool {
    &&& 0 <= k < items.len()
    &&& items[k] !is String
    &&& forall|j: int| 0 <= j < k ==> (#[trigger] items[j]) is String
}

/// Browser account ids read from a field: an array of strings.
pub open spec fn account_ids_spec(v: Json, field: Seq<char>) -> Result<Seq<Seq<char>>, Seq<char>> {
    match v {
        Json::Array(items) => if all_strings(items@) {
            Ok(string_texts(items@))
        } else {
            let k = choose|k: int| first_non_string_at(items@, k);
            Err(field + "["@ + decimal_text(k as nat) + "] must be a string"@)
        },
        _ => Err(field + " must be an array of browser account ids"@),
    }
}

/// Reads the browser account ids of a field.
pub fn account_ids(value: &Json, field: &str) -> (r: Result<Vec<String>, AdapterError>)
    ensures
        match r {
            Ok(ids) => account_ids_spec(*value, field@) == Ok::<Seq<Seq<char>>, Seq<char>>(
                texts(ids@),
            ),
            Err(e) => account_ids_spec(*value, field@) == Err::<Seq<Seq<char>>, Seq<char>>(
                e.message@,
            ),
        },
{
    match value {
        Json::Array(items) => {
            let mut ids: Vec<String> = Vec::new();
            let mut i: usize = 0;
            while i < items.len()
                invariant
                    i <= items@.len(),
                    *value == Json::Array(*items),
                    forall|j: int| 0 <= j < i ==> (#[trigger] items@[j]) is String,
                    texts(ids@) == string_texts(items@.take(i as int)),
                decreases items@.len() - i,
            {
                match &items[i] {
                    Json::String(s) => {
                        let ghost before = ids@;
                        ids.push(s.clone());
                        proof {
                            assert(items@.take(i + 1) =~= items@.take(i as int).push(items@[i as int]));
                            assert(texts(ids@) =~= texts(before).push(s@));
                            assert(string_texts(items@.take(i + 1)) =~= string_texts(
                                items@.take(i as int),
                            ).push(s@));
                        }
                    },
                    _ => {
                        proof {
                            assert(first_non_string_at(items@, i as int));
                            let c = choose|k: int| first_non_string_at(items@, k);
                            assert(first_non_string_at(items@, c));
                            if c < i {
                                assert(items@[c] is String);
                            }
                            if c > i {
                                assert(items@[i as int] is String);
                            }
                            assert(c == i);
                            assert(!all_strings(items@));
                        }
                        let mut m = concat(field, "[");
                        let d = decimal(i as u64);
                        m.append(d.as_str());
                        m.append("] must be a string");
                        return Err(adapter_error(m));
                    },
                }
                i = i + 1;
            }
            assert(items@.take(i as int) =~= items@);
            Ok(ids)
        },
        _ => Err(adapter_error(concat(field, " must be an array of browser account ids"))),
    }
}

/// The id at `j` repeats an earlier one.
pub open spec fn repeats_at(ids: Seq<Seq<char>>, j: int) -> bool {
    0 <= j < ids.len() && exists|i: int| 0 <= i < j && ids[i] == ids[j]
}

/// `j` is the first position whose id repeats an earlier one.
pub open spec fn first_repeat_at(ids: Seq<Seq<char>>, j: int) -> bool {
    repeats_at(ids, j) && forall|m: int| 0 <= m < j ==> !#[trigger] repeats_at(ids, m)
}

/// The refusal of a list of account ids that names one id twice: the first
/// repeated id in order.
pub open spec fn duplicate_account_error(ids: Seq<Seq<char>>) -> Option<Seq<char>> {
    if exists|j: int| first_repeat_at(ids, j) {
        let j = choose|j: int| first_repeat_at(ids, j);
        Some("duplicate browser account id requested: "@ + ids[j])
    } else {
        None
    }
}

/// Refuses a list of browser account ids that names one id twice.
pub fn reject_duplicate_accounts(ids: &Vec<String>) -> (r: Result<(), AdapterError>)
    ensures
        match r {
            Ok(()) => duplicate_account_error(texts(ids@)) is None,
            Err(e) => duplicate_account_error(texts(ids@)) == Some(e.message@),
        },
{
    let ghost t = texts(ids@);
    let mut j: usize = 0;
    while j < ids.len()
        invariant
            j <= ids@.len(),
            t == texts(ids@),
            t.len() == ids@.len(),
            forall|m: int| 0 <= m < j ==> !#[trigger] repeats_at(t, m),
        decreases ids@.len() - j,
    {
        let mut i: usize = 0;
        while i < j
            invariant
                i <= j,
                j < ids@.len(),
                t == texts(ids@),
                t.len() == ids@.len(),
                forall|m: int| 0 <= m < j ==> !#[trigger] repeats_at(t, m),
                forall|k: int| 0 <= k < i ==> t[k] != t[j as int],
            decreases j - i,
        {
            if str_eq(ids[i].as_str(), ids[j].as_str()) {
                proof {
                    assert(t[i as int] == t[j as int]);
                    assert(repeats_at(t, j as int));
                    assert(first_repeat_at(t, j as int));
                    let c = choose|c: int| first_repeat_at(t, c);
                    assert(first_repeat_at(t, c));
                    if c < j {
                        assert(!repeats_at(t, c));
                    }
                    if c > j {
                        assert(!repeats_at(t, j as int));
                    }
                    assert(c == j);
                }
                return Err(adapter_error(concat("duplicate browser account id requested: ", ids[j].as_str())));
            }
            i = i + 1;
        }
        assert(!repeats_at(t, j as int));
        j = j + 1;
    }
    proof {
        if exists|c: int| first_repeat_at(t, c) {
            let c = choose|c: int| first_repeat_at(t, c);
            assert(repeats_at(t, c));
        }
    }
    Ok(())
}

/// The ids of an optional field.
pub open spec fn optional_ids(o: Option<Json>, field: Seq<char>) -> Result<Option<Seq<Seq<char>>>, Seq<char>> {
    match o {
        None => Ok(None),
        Some(v) => match account_ids_spec(v, field) {
            Ok(ids) => Ok(Some(ids)),
            Err(e) => Err(e),
        },
    }
}

/// The ids of the single-account alias `account`.
pub open spec fn alias_ids(o: Option<Json>) -> Result<Option<Seq<Seq<char>>>, Seq<char>> {
    match o {
        None => Ok(None),
        Some(Json::String(s)) => Ok(Some(seq![s@])),
        Some(_) => Err("account must be a browser account id string"@),
    }
}

/// Merges one routing alias into the selection: an alias may only repeat it.
pub open spec fn merge_alias(
    selected: Option<Seq<Seq<char>>>,
    alias: Option<Seq<Seq<char>>>,
) -> Result<Option<Seq<Seq<char>>>, Seq<char>> {
    match alias {
        None => Ok(selected),
        Some(a) => match selected {
            Some(s) => if s == a {
                Ok(selected)
            } else {
                Err("conflicting Jailgun browser account routing aliases"@)
            },
            None => Ok(Some(a)),
        },
    }
}

/// The browser accounts a run request routes to: `browser.account_ids`, then
/// the aliases `account_ids` and `account`, which must agree with it.
pub open spec fn selected_accounts(req: Json) -> Result<Option<Seq<Seq<char>>>, Seq<char>> {
    let canonical = optional_ids(
        member(json_get(req, "browser"@), "account_ids"@),
        "browser.account_ids"@,
    );
    let top = optional_ids(json_get(req, "account_ids"@), "account_ids"@);
    let alias = alias_ids(json_get(req, "account"@));
    match canonical {
        Err(e) => Err(e),
        Ok(c) => match top {
            Err(e) => Err(e),
            Ok(t) => match alias {
                Err(e) => Err(e),
                Ok(a) => match merge_alias(c, t) {
                    Err(e) => Err(e),
                    Ok(s) => merge_alias(s, a),
                },
            },
        },
    }
}

/// Why a run request cannot be put in canonical form, if it cannot.
pub open spec fn run_request_error(req: Json) -> Option<Seq<char>> {
    if !(req is Object) {
        Some("Jailgun run request must be a JSON object"@)
    } else {
        match selected_accounts(req) {
            Err(e) => Some(e),
            Ok(None) => None,
            Ok(Some(ids)) => match duplicate_account_error(ids) {
                Some(e) => Some(e),
                None => match json_get(req, "browser"@) {
                    Some(b) => if b is Object {
                        None
                    } else {
                        Some("browser must be a JSON object"@)
                    },
                    None => None,
                },
            },
        }
    }
}

/// A JSON array of strings, by its texts.
pub open spec fn string_array(o: Option<Json>) -> Option<Seq<Seq<char>>> {
    match o {
        Some(Json::Array(items)) => if all_strings(items@) {
            Some(string_texts(items@))
        } else {
            None
        },
        _ => None,
    }
}

/// `out` is the canonical form of `req`: the aliases are gone, the selected
/// accounts stand in `browser.account_ids`, and every other member is kept.
pub open spec fn canonical_run_request(req: Json, out: Json) -> bool {
    &&& out is Object
    &&& json_get(out, "account_ids"@) is None
    &&& json_get(out, "account"@) is None
    &&& forall|k: Seq<char>|
        k != "account_ids"@ && k != "account"@ && k != "browser"@ ==> #[trigger] json_get(out, k)
            == json_get(req, k)
    &&& match selected_accounts(req) {
        Ok(Some(ids)) => match json_get(out, "browser"@) {
            Some(b) => {
                &&& b is Object
                &&& string_array(json_get(b, "account_ids"@)) == Some(ids)
                &&& forall|k: Seq<char>|
                    k != "account_ids"@ ==> #[trigger] json_get(b, k) == member(
                        json_get(req, "browser"@),
                        k,
                    )
            },
            None => false,
        },
        _ => json_get(out, "browser"@) == json_get(req, "browser"@),
    }
}

fn optional_account_ids(o: Option<&Json>, field: &str) -> (r: Result<Option<Vec<String>>, AdapterError>)
    ensures
        match r {
            Ok(None) => o is None,
            Ok(Some(ids)) => o is Some && account_ids_spec(*o.unwrap(), field@) == Ok::<
                Seq<Seq<char>>,
                Seq<char>,
            >(texts(ids@)),
            Err(e) => o is Some && account_ids_spec(*o.unwrap(), field@) == Err::<
                Seq<Seq<char>>,
                Seq<char>,
            >(e.message@),
        },
{
    match o {
        None => Ok(None),
        Some(v) => match account_ids(v, field) {
            Ok(ids) => Ok(Some(ids)),
            Err(e) => Err(e),
        },
    }
}

/// Whether two lists of texts are equal.
pub fn same_texts(a: &Vec<String>, b: &Vec<String>) -> (r: bool)
    ensures
        r == (texts(a@) == texts(b@)),
{
    if a.len() != b.len() {
        assert(texts(a@).len() != texts(b@).len());
        return false;
    }
    let mut i: usize = 0;
    while i < a.len()
        invariant
            i <= a@.len(),
            a@.len() == b@.len(),
            forall|k: int| 0 <= k < i ==> a@[k]@ == b@[k]@,
        decreases a@.len() - i,
    {
        if !str_eq(a[i].as_str(), b[i].as_str()) {
            assert(texts(a@)[i as int] != texts(b@)[i as int]);
            return false;
        }
        i = i + 1;
    }
    assert(texts(a@) =~= texts(b@));
    true
}

fn merge(selected: Option<Vec<String>>, alias: Option<Vec<String>>) -> (r: Result<Option<Vec<String>>, AdapterError>)
    ensures
        match r {
            Ok(s) => merge_alias(opt_texts(selected), opt_texts(alias)) == Ok::<
                Option<Seq<Seq<char>>>,
                Seq<char>,
            >(opt_texts(s)),
            Err(e) => merge_alias(opt_texts(selected), opt_texts(alias)) == Err::<
                Option<Seq<Seq<char>>>,
                Seq<char>,
            >(e.message@),
        },
{
    match alias {
        None => Ok(selected),
        Some(a) => match selected {
            Some(s) => if same_texts(&s, &a) {
                Ok(Some(s))
            } else {
                Err(adapter_error("conflicting Jailgun browser account routing aliases".to_owned()))
            },
            None => Ok(Some(a)),
        },
    }
}

/// The texts of an optional list of strings.
pub open spec fn opt_texts(o: Option<Vec<String>>) -> Option<Seq<Seq<char>>> {
    match o {
        Some(v) => Some(texts(v@)),
        None => None,
    }
}

fn selection(entries: &Vec<(String, Json)>) -> (r: Result<Option<Vec<String>>, AdapterError>)
    ensures
        match r {
            Ok(s) => selected_accounts(Json::Object(*entries)) == Ok::<
                Option<Seq<Seq<char>>>,
                Seq<char>,
            >(opt_texts(s)),
            Err(e) => selected_accounts(Json::Object(*entries)) == Err::<
                Option<Seq<Seq<char>>>,
                Seq<char>,
            >(e.message@),
        },
{
    let ghost req = Json::Object(*entries);
    let canonical_value = match entries_get(entries, "browser") {
        Some(b) => b.get("account_ids"),
        None => None,
    };
    assert(canonical_value matches Some(v) ==> member(json_get(req, "browser"@), "account_ids"@)
        == Some(*v));
    assert(canonical_value is None ==> member(json_get(req, "browser"@), "account_ids"@) is None);
    let canonical = match optional_account_ids(canonical_value, "browser.account_ids") {
        Ok(c) => c,
        Err(e) => {
            return Err(e);
        },
    };
    let top = match optional_account_ids(entries_get(entries, "account_ids"), "account_ids") {
        Ok(t) => t,
        Err(e) => {
            return Err(e);
        },
    };
    let alias: Option<Vec<String>> = match entries_get(entries, "account") {
        None => None,
        Some(Json::String(s)) => {
            let mut v: Vec<String> = Vec::new();
            v.push(s.clone());
            assert(texts(v@) =~= seq![s@]);
            Some(v)
        },
        Some(_) => {
            return Err(adapter_error("account must be a browser account id string".to_owned()));
        },
    };
    let merged = match merge(canonical, top) {
        Ok(m) => m,
        Err(e) => {
            return Err(e);
        },
    };
    merge(merged, alias)
}

fn string_values(ids: &Vec<String>) -> (items: Vec<Json>)
    ensures
        all_strings(items@),
        string_texts(items@) == texts(ids@),
{
    let mut items: Vec<Json> = Vec::new();
    let mut i: usize = 0;
    while i < ids.len()
        invariant
            i <= ids@.len(),
            items@.len() == i,
            all_strings(items@),
            string_texts(items@) == texts(ids@.take(i as int)),
        decreases ids@.len() - i,
    {
        let ghost before = items@;
        let s = ids[i].clone();
        items.push(Json::String(s));
        proof {
            assert(ids@.take(i + 1) =~= ids@.take(i as int).push(ids@[i as int]));
            assert(texts(ids@.take(i + 1)) =~= texts(ids@.take(i as int)).push(ids@[i as int]@));
            assert(string_texts(items@) =~= string_texts(before).push(ids@[i as int]@));
        }
        i = i + 1;
    }
    assert(ids@.take(i as int) =~= ids@);
    items
}

/// Puts a run request in canonical form: the routing aliases `account_ids`
/// and `account` are folded into `browser.account_ids` and removed.
pub fn canonicalize_run_request(request: Json) -> (r: Result<Json, AdapterError>)
    ensures
        match r {
            Ok(out) => run_request_error(request) is None && canonical_run_request(request, out),
            Err(e) => run_request_error(request) == Some(e.message@),
        },
{
    let ghost req = request;
    let mut entries = match request {
        Json::Object(e) => e,
        _ => {
            return Err(adapter_error("Jailgun run request must be a JSON object".to_owned()));
        },
    };
    assert(req == Json::Object(entries));
    let selected = match selection(&entries) {
        Ok(s) => s,
        Err(e) => {
            return Err(e);
        },
    };
    let ghost orig = entries@;
    let ghost sel = opt_texts(selected);
    match selected {
        Some(ids) => {
            match reject_duplicate_accounts(&ids) {
                Err(e) => {
                    return Err(e);
                },
                Ok(()) => {},
            }
            let browser = take_member(&mut entries, "browser");
            let mut browser_entries: Vec<(String, Json)> = match browser {
                None => Vec::new(),
                Some(Json::Object(b)) => b,
                Some(_) => {
                    return Err(adapter_error("browser must be a JSON object".to_owned()));
                },
            };
            let ghost old_browser = browser_entries@;
            assert forall|k: Seq<char>|
                #[trigger] lookup(old_browser, k) == member(json_get(req, "browser"@), k) by {
                if browser is None {
                    assert(old_browser =~= Seq::<(String, Json)>::empty());
                }
            }
            let items = string_values(&ids);
            let ghost arr = Json::Array(items);
            set_member(&mut browser_entries, "account_ids".to_owned(), Json::Array(items));
            let ghost b = Json::Object(browser_entries);
            assert(string_array(json_get(b, "account_ids"@)) == Some(texts(ids@)));
            set_member(&mut entries, "browser".to_owned(), Json::Object(browser_entries));
            assert(json_get(Json::Object(entries), "browser"@) == Some(b));
        },
        None => {},
    }
    let ghost mid = entries@;
    proof {
        reveal_strlit("browser");
        reveal_strlit("account_ids");
        reveal_strlit("account");
        assert("browser"@[0] != "account"@[0]);
        assert("browser"@ != "account_ids"@);
        assert("browser"@ != "account"@);
    }
    let _ = take_member(&mut entries, "account_ids");
    let _ = take_member(&mut entries, "account");
    let ghost out = Json::Object(entries);
    assert(json_get(out, "browser"@) == lookup(mid, "browser"@));
    assert(run_request_error(req) is None);
    assert(forall|k: Seq<char>|
        k != "account_ids"@ && k != "account"@ && k != "browser"@ ==> #[trigger] json_get(out, k)
            == json_get(req, k));
    Ok(Json::Object(entries))
}

/// Checks a run request's wire version (absent, or 1) and puts it in
/// canonical form.
pub fn accept_run_request(request: Json) -> (r: Result<Json, AdapterError>)
    ensures
        match r {
            Ok(out) => {
                &&& request_version_error(request, "Jailgun run request"@) is None
                &&& run_request_error(request) is None
                &&& canonical_run_request(request, out)
            },
            Err(e) => match request_version_error(request, "Jailgun run request"@) {
                Some(m) => e.message@ == m,
                None => run_request_error(request) == Some(e.message@),
            },
        },
{
    match check_request_version(&request, "Jailgun run request") {
        Err(e) => {
            return Err(e);
        },
        Ok(()) => {},
    }
    canonicalize_run_request(request)
}

/// Where a run request comes from: the work order's own `request`, or a JSON
/// file named by `request_path` that the caller reads.
#[derive(Debug)]
pub enum RunRequestSource {
    Inline(Json),
    File(String),
}

/// Finds the run request of a work-order payload: `request` first, then
/// `request_path`.
pub fn run_request_source(payload: Json) -> (r: Result<RunRequestSource, AdapterError>)
    ensures
        match r {
            Ok(RunRequestSource::Inline(req)) => json_get(payload, "request"@) == Some(req),
            Ok(RunRequestSource::File(path)) => {
                &&& json_get(payload, "request"@) is None
                &&& json_str(json_get(payload, "request_path"@)) == Some(path@)
            },
            Err(e) => {
                &&& json_get(payload, "request"@) is None
                &&& json_str(json_get(payload, "request_path"@)) is None
                &&& e.message@ == "jailgun work order requires request_path or request"@
            },
        },
{
    let ghost p = payload;
    match payload {
        Json::Object(mut entries) => {
            let ghost orig = entries@;
            let path: Option<String> = match entries_get_str(&entries, "request_path") {
                Some(s) => Some(s.to_owned()),
                None => None,
            };
            match take_member(&mut entries, "request") {
                Some(req) => Ok(RunRequestSource::Inline(req)),
                None => match path {
                    Some(s) => Ok(RunRequestSource::File(s)),
                    None => Err(adapter_error("jailgun work order requires request_path or request".to_owned())),
                },
            }
        },
        _ => Err(adapter_error("jailgun work order requires request_path or request".to_owned())),
    }
}

/// The canonical form is stable: putting a canonical request in canonical
/// form again selects the same browser accounts and is refused for nothing.
pub proof fn law_canonical_form_is_stable(req: Json, out: Json)
    requires
        run_request_error(req) is None,
        canonical_run_request(req, out),
    ensures
        selected_accounts(out) == selected_accounts(req),
        run_request_error(out) is None,
{
    reveal_strlit("browser");
    reveal_strlit("account_ids");
    reveal_strlit("account");
    assert(optional_ids(json_get(out, "account_ids"@), "account_ids"@) == Ok::<
        Option<Seq<Seq<char>>>,
        Seq<char>,
    >(None));
    assert(alias_ids(json_get(out, "account"@)) == Ok::<Option<Seq<Seq<char>>>, Seq<char>>(None));
    match selected_accounts(req) {
        Ok(Some(ids)) => {
            let b = json_get(out, "browser"@).unwrap();
            let v = json_get(b, "account_ids"@).unwrap();
            assert(v is Array);
            assert(account_ids_spec(v, "browser.account_ids"@) == Ok::<Seq<Seq<char>>, Seq<char>>(
                ids,
            ));
        },
        Ok(None) => {
            assert(member(json_get(req, "browser"@), "account_ids"@) is None);
        },
        Err(_) => {},
    }
}

} // verus!
