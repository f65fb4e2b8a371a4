use crate::access_token::Token;
use vstd::prelude::*;
use vstd::string::StringExecFns;

verus! {

/// Which page of the projects listing to ask for, under which filters, each a
/// key and the value that it must have.
#[derive(Debug, Clone)]
pub struct ReqProjectsParams {
    pub page: usize,
    pub filter: Vec<(String, String)>,
}

/// The character of a decimal digit.
pub open spec fn digit(d: nat) -> char
    recommends
        d < 10,
{
    if d == 0 {
        '0'
    } else if d == 1 {
        '1'
    } else if d == 2 {
        '2'
    } else if d == 3 {
        '3'
    } else if d == 4 {
        '4'
    } else if d == 5 {
        '5'
    } else if d == 6 {
        '6'
    } else if d == 7 {
        '7'
    } else if d == 8 {
        '8'
    } else {
        '9'
    }
}

/// A number in decimal, without sign or leading zeros.
pub open spec fn decimal(n: nat) -> Seq<char>
    decreases n,
{
    if n < 10 {
        seq![digit(n)]
    } else {
        decimal(n / 10).push(digit(n % 10))
    }
}

/// The query parameters that ask for the given filters, in their order.
pub open spec fn filter_query(filter: Seq<(Seq<char>, Seq<char>)>) -> Seq<char>
    decreases filter.len(),
{
    if filter.len() == 0 {
        Seq::empty()
    } else {
        filter_query(filter.drop_last()) + "&filter["@ + filter.last().0 + "]="@
            + filter.last().1
    }
}

/// The endpoint of a page of the projects listing under the given filters.
pub open spec fn projects_endpoint(page: nat, filter: Seq<(Seq<char>, Seq<char>)>) -> Seq<char> {
    "cursus/21/projects?page="@ + decimal(page) + filter_query(filter)
}

fn digit_str(d: usize) -> (s: &'static str)
    requires
        d < 10,
    ensures
        s@ == seq![digit(d as nat)],
{
    proof {
        reveal_strlit("0");
        reveal_strlit("1");
        reveal_strlit("2");
        reveal_strlit("3");
        reveal_strlit("4");
        reveal_strlit("5");
        reveal_strlit("6");
        reveal_strlit("7");
        reveal_strlit("8");
        reveal_strlit("9");
    }
    let s = if d == 0 {
        "0"
    } else if d == 1 {
        "1"
    } else if d == 2 {
        "2"
    } else if d == 3 {
        "3"
    } else if d == 4 {
        "4"
    } else if d == 5 {
        "5"
    } else if d == 6 {
        "6"
    } else if d == 7 {
        "7"
    } else if d == 8 {
        "8"
    } else {
        "9"
    };
    assert(s@ =~= seq![digit(d as nat)]);
    s
}

/// Writes a number in decimal.
pub fn decimal_string(n: usize) -> (s: String)
    ensures
        s@ == decimal(n as nat),
    decreases n,
{
    if n < 10 {
        String::from_str(digit_str(n))
    } else {
        let mut s = decimal_string(n / 10);
        s.append(digit_str(n % 10));
        assert(s@ =~= decimal(n as nat));
        s
    }
}

impl Token {
    /// The endpoint of the page of the projects listing that `params` asks for:
    /// the page number as the first query parameter, then one parameter for each
    /// filter, in the order given.
    pub fn req_projects_endpoint(params: ReqProjectsParams) -> (endpoint: String)
        ensures
            endpoint@ == projects_endpoint(params.page as nat, params.filter.deep_view()),
    {
        let mut endpoint = String::from_str("cursus/21/projects?page=");
        let page = decimal_string(params.page);
        endpoint.append(page.as_str());
        let ghost filter = params.filter.deep_view();
        let mut i: usize = 0;
        while i < params.filter.len()
            invariant
                i <= params.filter.len(),
                filter == params.filter.deep_view(),
                filter.len() == params.filter.len(),
                endpoint@ == "cursus/21/projects?page="@ + decimal(params.page as nat)
                    + filter_query(filter.take(i as int)),
            decreases params.filter.len() - i,
        {
            let ghost before = endpoint@;
            endpoint.append("&filter[");
            endpoint.append(params.filter[i].0.as_str());
            endpoint.append("]=");
            endpoint.append(params.filter[i].1.as_str());
            proof {
                let upto = filter.take(i + 1);
                assert(upto.drop_last() =~= filter.take(i as int));
                assert(upto.last() == filter[i as int]);
                assert(filter[i as int].0 == params.filter[i as int].0@);
                assert(filter[i as int].1 == params.filter[i as int].1@);
                assert(endpoint@ =~= before + filter_query(upto).subrange(
                    filter_query(filter.take(i as int)).len() as int,
                    filter_query(upto).len() as int,
                ));
            }
            i += 1;
        }
        assert(filter.take(i as int) =~= filter);
        endpoint
    }
}

} // verus!
