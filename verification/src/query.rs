use crate::clock::{day_label, day_label_of, valid_day};
use crate::dto::{EntryLogQueryParams, FilterField};
use crate::text::{lowercase, lowercase_of, text_view, trim, trimmed};
use vstd::prelude::*;

verus! {

/// The views of a sequence of texts.
pub open spec fn texts(items: Seq<String>) -> Seq<Seq<char>> {
    Seq::new(items.len(), |i: int| items[i]@)
}

/// The pieces of `text` between its commas. A text without a comma is one
/// piece, and the empty text is one empty piece.
pub open spec fn split_commas(text: Seq<char>) -> Seq<Seq<char>>
    decreases text.len(),
{
    if text.len() == 0 {
        seq![Seq::empty()]
    } else {
        let before = split_commas(text.drop_last());
        if text.last() == ',' {
            before.push(Seq::empty())
        } else {
            before.drop_last().push(before.last().push(text.last()))
        }
    }
}

/// The first `n` of the pieces, each without the white space around it.
pub open spec fn trimmed_upto(pieces: Seq<Seq<char>>, n: int) -> Seq<Seq<char>>
    decreases n,
{
    if n <= 0 {
        Seq::empty()
    } else {
        trimmed_upto(pieces, n - 1).push(trimmed(pieces[n - 1]))
    }
}

/// The first `n` of the pieces in one text, with `separator` between each
/// two.
pub open spec fn joined_upto(pieces: Seq<Seq<char>>, separator: Seq<char>, n: int) -> Seq<char>
    decreases n,
{
    if n <= 0 {
        Seq::empty()
    } else if n == 1 {
        pieces[0]
    } else {
        joined_upto(pieces, separator, n - 1) + separator + pieces[n - 1]
    }
}

/// The pieces in one text, with `separator` between each two.
pub open spec fn joined(pieces: Seq<Seq<char>>, separator: Seq<char>) -> Seq<char> {
    joined_upto(pieces, separator, pieces.len() as int)
}

/// The condition that keeps the records whose status is one of the values
/// that `value` lists between commas.
pub open spec fn status_condition(value: Seq<char>) -> Seq<char> {
    let pieces = split_commas(value);
    "COALESCE(el.status, '') IN ('"@ + joined(trimmed_upto(pieces, pieces.len() as int), "', '"@)
        + "')"@
}

/// The conditions of the first `n` filters: one for each filter on the
/// status, none for a filter on any other field.
pub open spec fn filter_conditions_upto(filters: Seq<FilterField>, n: int) -> Seq<Seq<char>>
    decreases n,
{
    if n <= 0 {
        Seq::empty()
    } else if filters[n - 1].field@ == "status"@ {
        filter_conditions_upto(filters, n - 1).push(status_condition(filters[n - 1].value@))
    } else {
        filter_conditions_upto(filters, n - 1)
    }
}

/// The term that a search is made with: the search text without the white
/// space around it, in lower case; `None` if that is empty or no search is
/// asked for.
pub open spec fn search_term(search: Option<Seq<char>>) -> Option<Seq<char>> {
    match search {
        Some(text) => if lowercase_of(trimmed(text)).len() == 0 {
            None
        } else {
            Some(lowercase_of(trimmed(text)))
        },
        None => None,
    }
}

/// The condition of the ledger query for a term as it is searched with, or
/// `None` for an empty term.
pub open spec fn search_condition_of(term: Seq<char>) -> Option<Seq<char>> {
    if term.len() == 0 {
        None
    } else {
        Some(search_condition(term))
    }
}

/// The condition that keeps the records whose member name or card holds the
/// term.
pub open spec fn search_condition(term: Seq<char>) -> Seq<char> {
    "LOWER(el.member_name) LIKE '%"@ + term + "%' OR el.card_id LIKE '%"@ + term + "%'"@
}

/// The conditions of a ledger query, in their order: the search, the
/// filters as one condition, the first day, the last day.
pub open spec fn conditions_of(
    search: Option<Seq<char>>,
    filters: Option<Seq<FilterField>>,
    date_from: Option<i32>,
    date_to: Option<i32>,
) -> Seq<Seq<char>> {
    let by_search = match search_term(search) {
        Some(term) => seq![search_condition(term)],
        None => Seq::empty(),
    };
    let by_filters = match filters {
        Some(list) => if filter_conditions_upto(list, list.len() as int).len() > 0 {
            seq![joined(filter_conditions_upto(list, list.len() as int), " AND "@)]
        } else {
            Seq::empty()
        },
        None => Seq::empty(),
    };
    let by_from = match date_from {
        Some(_) => seq!["DATE(el.entry_time) >= ?"@],
        None => Seq::empty(),
    };
    let by_to = match date_to {
        Some(_) => seq!["DATE(el.entry_time) <= ?"@],
        None => Seq::empty(),
    };
    by_search + by_filters + by_from + by_to
}

/// The condition of a ledger query as one text: every condition joined by
/// `AND`, or a condition that holds of every record where there is none.
pub open spec fn where_clause_of(conditions: Seq<Seq<char>>) -> Seq<char> {
    if conditions.len() == 0 {
        "1=1"@
    } else {
        joined(conditions, " AND "@)
    }
}

/// The values for the placeholders of the conditions: the texts of the
/// first and of the last day, as far as they are asked for.
pub open spec fn params_of(date_from: Option<i32>, date_to: Option<i32>) -> Seq<Seq<char>> {
    let from = match date_from {
        Some(d) => seq![day_label_of(d)],
        None => Seq::empty(),
    };
    let to = match date_to {
        Some(d) => seq![day_label_of(d)],
        None => Seq::empty(),
    };
    from + to
}

/// Makes the condition of the ledger query for a term as it is searched
/// with: none for an empty term.
pub fn search_clause(term: &String) -> (res: Option<String>)
    ensures
        text_view(res) == search_condition_of(term@),
{
    if term.as_str().unicode_len() == 0 {
        return None;
    }
    let mut condition = String::from_str("LOWER(el.member_name) LIKE '%");
    condition.append(term.as_str());
    condition.append("%' OR el.card_id LIKE '%");
    condition.append(term.as_str());
    condition.append("%'");
    Some(condition)
}

/// Splits a text at its commas.
pub fn split_at_commas(text: &str) -> (pieces: Vec<String>)
    ensures
        texts(pieces@) == split_commas(text@),
{
    let n = text.unicode_len();
    let mut pieces: Vec<String> = Vec::new();
    let mut start: usize = 0;
    let mut k: usize = 0;
    assert(text@.subrange(0, 0) =~= Seq::<char>::empty());
    assert(texts(pieces@).push(text@.subrange(0, 0)) =~= seq![Seq::<char>::empty()]);
    while k < n
        invariant
            n == text@.len(),
            start <= k <= n,
            split_commas(text@.subrange(0, k as int)) == texts(pieces@).push(
                text@.subrange(start as int, k as int),
            ),
        decreases n - k,
    {
        let c = text.get_char(k);
        let ghost head = text@.subrange(0, k as int);
        let ghost next = text@.subrange(0, k as int + 1);
        assert(next.drop_last() =~= head);
        assert(next.last() == c);
        if c == ',' {
            let piece = String::from_str(text.substring_char(start, k));
            let ghost before = pieces@;
            pieces.push(piece);
            start = k + 1;
            assert(text@.subrange(start as int, k as int + 1) =~= Seq::<char>::empty());
            assert(texts(pieces@) =~= texts(before).push(piece@));
        } else {
            assert(text@.subrange(start as int, k as int + 1) =~= text@.subrange(
                start as int,
                k as int,
            ).push(c));
            assert(split_commas(head).drop_last() =~= texts(pieces@));
        }
        k = k + 1;
    }
    let last = String::from_str(text.substring_char(start, n));
    let ghost before = pieces@;
    pieces.push(last);
    assert(texts(pieces@) =~= texts(before).push(last@));
    assert(text@.subrange(0, n as int) =~= text@);
    pieces
}

/// Joins texts with a separator between each two.
pub fn join_texts(pieces: &Vec<String>, separator: &str) -> (res: String)
    ensures
        res@ == joined(texts(pieces@), separator@),
{
    let mut res = String::new();
    let mut k: usize = 0;
    while k < pieces.len()
        invariant
            k <= pieces@.len(),
            res@ == joined_upto(texts(pieces@), separator@, k as int),
        decreases pieces@.len() - k,
    {
        if k > 0 {
            res.append(separator);
        }
        res.append(pieces[k].as_str());
        proof {
            if k == 0 {
                assert(res@ =~= texts(pieces@)[0]);
            }
        }
        k = k + 1;
    }
    res
}

/// Makes the condition on the status for the values that `value` lists.
pub fn status_filter(value: &str) -> (res: String)
    ensures
        res@ == status_condition(value@),
{
    let pieces = split_at_commas(value);
    let mut cleaned: Vec<String> = Vec::new();
    let mut k: usize = 0;
    while k < pieces.len()
        invariant
            k <= pieces@.len(),
            texts(cleaned@) == trimmed_upto(texts(pieces@), k as int),
        decreases pieces@.len() - k,
    {
        let piece = trim(pieces[k].as_str());
        let ghost before = cleaned@;
        cleaned.push(piece);
        assert(texts(cleaned@) =~= texts(before).push(piece@));
        assert(texts(pieces@)[k as int] == pieces@[k as int]@);
        k = k + 1;
    }
    assert(texts(pieces@).len() == pieces@.len());
    let mut res = String::from_str("COALESCE(el.status, '') IN ('");
    res.append(join_texts(&cleaned, "', '").as_str());
    res.append("')");
    res
}

/// Builds the condition of a ledger query and the values for its
/// placeholders. Free text is matched against member name and card, the
/// status against a list of values, and the entry day against the first and
/// last day that are asked for.
pub fn build_where_clause_and_params(params: &EntryLogQueryParams) -> (res: (String, Vec<String>))
    requires
        params.date_from matches Some(d) ==> valid_day(d),
        params.date_to matches Some(d) ==> valid_day(d),
    ensures
        res.0@ == where_clause_of(
            conditions_of(
                text_view(params.search_string),
                filters_view(params.filter_fields),
                params.date_from,
                params.date_to,
            ),
        ),
        texts(res.1@) == params_of(params.date_from, params.date_to),
{
    let mut conditions: Vec<String> = Vec::new();
    let mut values: Vec<String> = Vec::new();
    match &params.search_string {
        Some(text) => {
            let term = lowercase(trim(text.as_str()).as_str());
            match search_clause(&term) {
                Some(condition) => {
                    conditions.push(condition);
                },
                None => {},
            }
        },
        None => {},
    }
    let ghost by_search = texts(conditions@);
    assert(by_search =~= match search_term(text_view(params.search_string)) {
        Some(term) => seq![search_condition(term)],
        None => Seq::empty(),
    });
    match &params.filter_fields {
        Some(filters) => {
            let mut found: Vec<String> = Vec::new();
            let mut k: usize = 0;
            while k < filters.len()
                invariant
                    k <= filters@.len(),
                    texts(found@) == filter_conditions_upto(filters@, k as int),
                decreases filters@.len() - k,
            {
                if filters[k].field == String::from_str("status") {
                    let condition = status_filter(filters[k].value.as_str());
                    let ghost before = found@;
                    found.push(condition);
                    assert(texts(found@) =~= texts(before).push(condition@));
                }
                k = k + 1;
            }
            if found.len() > 0 {
                let all = join_texts(&found, " AND ");
                let ghost before = conditions@;
                conditions.push(all);
                assert(texts(conditions@) =~= texts(before).push(all@));
            }
        },
        None => {},
    }
    let ghost by_filters = texts(conditions@);
    match params.date_from {
        Some(d) => {
            let condition = String::from_str("DATE(el.entry_time) >= ?");
            let value = day_label(d);
            let ghost before = conditions@;
            conditions.push(condition);
            values.push(value);
            assert(texts(conditions@) =~= texts(before).push(condition@));
            assert(texts(values@) =~= seq![value@]);
        },
        None => {
            assert(texts(values@) =~= Seq::<Seq<char>>::empty());
        },
    }
    let ghost by_from = texts(conditions@);
    let ghost values_from = texts(values@);
    match params.date_to {
        Some(d) => {
            let condition = String::from_str("DATE(el.entry_time) <= ?");
            let value = day_label(d);
            let ghost before = conditions@;
            let ghost values_before = values@;
            conditions.push(condition);
            values.push(value);
            assert(texts(conditions@) =~= texts(before).push(condition@));
            assert(texts(values@) =~= texts(values_before).push(value@));
        },
        None => {},
    }
    assert(texts(conditions@) =~= conditions_of(
        text_view(params.search_string),
        filters_view(params.filter_fields),
        params.date_from,
        params.date_to,
    ));
    assert(texts(values@) =~= params_of(params.date_from, params.date_to));
    let clause = if conditions.len() == 0 {
        String::from_str("1=1")
    } else {
        join_texts(&conditions, " AND ")
    };
    (clause, values)
}

/// The filters of a query as a sequence.
pub open spec fn filters_view(filters: Option<Vec<FilterField>>) -> Option<Seq<FilterField>> {
    match filters {
        Some(list) => Some(list@),
        None => None,
    }
}

} // verus!
