//! What the read-only MCP server tells its clients about itself.

use vstd::prelude::*;
use vstd::string::*;

verus! {

/// The MCP server's self-description.
#[derive(Debug)]
pub struct McpServerInfo {
    pub name: String,
    pub version: String,
    pub title: String,
    pub website_url: String,
    pub instructions: String,
    /// The server offers tools (and nothing else).
    pub tools_enabled: bool,
}

pub open spec fn mcp_instructions() -> Seq<char> {
    "Hone is a personal finance tool for tracking spending, subscriptions, and waste. Use the available tools to query transactions, analyze spending patterns, check subscriptions, and identify potential savings."@
}

/// The server information of this build (`version` is the package version).
pub fn server_info(version: &str) -> (r: McpServerInfo)
    ensures
        r.name@ == "hone"@,
        r.version@ == version@,
        r.title@ == "Hone Personal Finance"@,
        r.website_url@ == "https://github.com/heskew/hone"@,
        r.instructions@ == mcp_instructions(),
        r.tools_enabled,
{
    McpServerInfo {
        name: String::from_str("hone"),
        version: String::from_str(version),
        title: String::from_str("Hone Personal Finance"),
        website_url: String::from_str("https://github.com/heskew/hone"),
        instructions: String::from_str(
            "Hone is a personal finance tool for tracking spending, subscriptions, and waste. Use the available tools to query transactions, analyze spending patterns, check subscriptions, and identify potential savings.",
        ),
        tools_enabled: true,
    }
}

/// The MCP tools, all read-only, with their descriptions.
pub open spec fn spec_mcp_tools() -> Seq<(Seq<char>, Seq<char>)> {
    seq![
        ("search_transactions"@, "Search for transactions. Returns matching transactions with amount, date, merchant, and tags."@),
        ("get_spending_summary"@, "Get spending breakdown by category. Returns total spending per category with percentages."@),
        ("get_subscriptions"@, "List subscriptions. Shows recurring charges with amount, frequency, and status (active/cancelled/excluded)."@),
        ("get_alerts"@, "Get waste detection alerts. Shows zombie subscriptions, price increases, duplicates, and spending anomalies."@),
        ("compare_spending"@, "Compare spending between two periods. Shows changes by category with increase/decrease amounts."@),
        ("get_merchants"@, "Get top merchants by spending amount. Returns merchant name, total spent, and transaction count."@),
        ("get_account_summary"@, "Get summary of all accounts with recent activity and totals."@),
    ]
}

pub fn mcp_tools() -> (r: Vec<(&'static str, &'static str)>)
    ensures
        r@.map_values(|p: (&str, &str)| (p.0@, p.1@)) == spec_mcp_tools(),
{
    let v = vec![
        ("search_transactions", "Search for transactions. Returns matching transactions with amount, date, merchant, and tags."),
        ("get_spending_summary", "Get spending breakdown by category. Returns total spending per category with percentages."),
        ("get_subscriptions", "List subscriptions. Shows recurring charges with amount, frequency, and status (active/cancelled/excluded)."),
        ("get_alerts", "Get waste detection alerts. Shows zombie subscriptions, price increases, duplicates, and spending anomalies."),
        ("compare_spending", "Compare spending between two periods. Shows changes by category with increase/decrease amounts."),
        ("get_merchants", "Get top merchants by spending amount. Returns merchant name, total spent, and transaction count."),
        ("get_account_summary", "Get summary of all accounts with recent activity and totals."),
    ];
    assert(v@.map_values(|p: (&str, &str)| (p.0@, p.1@)) =~= spec_mcp_tools());
    v
}

} // verus!
