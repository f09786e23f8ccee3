//! The provider's two endpoints.

use vstd::prelude::*;
use vstd::string::StringExecFns;

verus! {

/// The address of the page of `address`'s transactions that starts behind
/// the transaction signed `before`, or of the first page.
pub open spec fn transactions_url_spec(
    address: Seq<char>,
    api_key: Seq<char>,
    before: Option<Seq<char>>,
) -> Seq<char> {
    let first = "https://api.helius.xyz/v0/addresses/"@ + address + "/transactions?api-key="@
        + api_key;
    match before {
        Some(cursor) => first + "&before="@ + cursor,
        None => first,
    }
}

/// The address to which the lookup of single transactions is posted.
pub open spec fn lookup_url_spec(api_key: Seq<char>) -> Seq<char> {
    "https://api.helius.xyz/v0/transactions/?api-key="@ + api_key
}

/// Builds the address for a request for a page of transactions. Nothing is
/// escaped: the three parts are put in as they are.
pub fn transactions_url(address: &str, api_key: &str, before: &Option<String>) -> (url: String)
    ensures
        url@ == transactions_url_spec(
            address@,
            api_key@,
            match *before {
                Some(cursor) => Some(cursor@),
                None => None,
            },
        ),
{
    let mut url = "https://api.helius.xyz/v0/addresses/".to_owned();
    url.append(address);
    url.append("/transactions?api-key=");
    url.append(api_key);
    match before {
        Some(cursor) => {
            url.append("&before=");
            url.append(cursor.as_str());
        },
        None => {},
    }
    url
}

/// Builds the address for the lookup of a single transaction.
pub fn lookup_url(api_key: &str) -> (url: String)
    ensures
        url@ == lookup_url_spec(api_key@),
{
    let mut url = "https://api.helius.xyz/v0/transactions/?api-key=".to_owned();
    url.append(api_key);
    url
}

} // verus!
