//! The `/mcp` manager: the list of globally configured MCP servers, the
//! actions on one server, and how the views follow the server inventory.

use vstd::prelude::*;
use crate::account_picker::{
    AppEvent, FooterHint, HeaderLine, LineStyle, SelectionItem, SelectionViewParams,
};
use crate::chat_widget::{ChatWidget, McpAuthStatus, McpServerStatus};
use crate::saved_accounts::str_opt_view;
use crate::sort::{StrictOrder, is_sorted, lemma_same_elements, sort_stable};
use crate::str_map::StrMap;
use crate::text::{
    compare_seq, compare_str, decimal, join, join_strings, lemma_compare_flip,
    lemma_compare_less_transitive, lemma_compare_weak, opt_view, owned, push_decimal, push_str, str_eq, views, Order,
};

verus! {

broadcast use vstd::seq_lib::group_to_multiset_ensures;

/// How an MCP server is reached.
#[derive(Debug)]
pub enum McpServerTransportConfig {
    Stdio { command: String, args: Vec<String> },
    StreamableHttp { url: String },
}

/// A configured MCP server.
#[derive(Debug)]
pub struct McpServerConfig {
    pub enabled: bool,
    pub transport: McpServerTransportConfig,
}

/// A configured MCP server with its name.
#[derive(Debug)]
pub struct McpServerEntry {
    pub name: String,
    pub config: McpServerConfig,
}

/// How much of the inventory to fetch.
#[derive(PartialEq, Eq, Structural, Clone, Copy, Debug)]
pub enum McpServerStatusDetail {
    Full,
    ToolsAndAuthOnly,
}

/// Server names are distinct.
pub open spec fn distinct_names(servers: Seq<McpServerEntry>) -> bool {
    forall|i: int, j: int|
        0 <= i < j < servers.len() ==> (#[trigger] servers[i]).name@ != (#[trigger] servers[j]).name@
}

// ---------------------------------------------------------------------------
// Describing servers
// ---------------------------------------------------------------------------

pub open spec fn status_line_of(c: McpServerConfig) -> Seq<char> {
    if c.enabled {
        "Enabled"@
    } else {
        "Disabled"@
    }
}

pub fn mcp_status_line(config: &McpServerConfig) -> (r: String)
    ensures
        r@ == status_line_of(*config),
{
    if config.enabled {
        owned("Enabled")
    } else {
        owned("Disabled")
    }
}

/// `stdio · command args...` or `http · url`.
pub open spec fn transport_summary_of(t: McpServerTransportConfig) -> Seq<char> {
    match t {
        McpServerTransportConfig::Stdio { command, args } => if args@.len() == 0 {
            "stdio · "@ + command@
        } else {
            "stdio · "@ + command@ + " "@ + join(views(args@), " "@)
        },
        McpServerTransportConfig::StreamableHttp { url } => "http · "@ + url@,
    }
}

pub fn mcp_transport_summary(transport: &McpServerTransportConfig) -> (r: String)
    ensures
        r@ == transport_summary_of(*transport),
{
    match transport {
        McpServerTransportConfig::Stdio { command, args } => {
            let mut r = owned("stdio · ");
            push_str(&mut r, command.as_str());
            if args.len() > 0 {
                push_str(&mut r, " ");
                let j = join_strings(args, " ");
                push_str(&mut r, j.as_str());
            }
            r
        },
        McpServerTransportConfig::StreamableHttp { url } => {
            let mut r = owned("http · ");
            push_str(&mut r, url.as_str());
            r
        },
    }
}

/// How an authentication status is shown.
pub open spec fn auth_status_text(s: McpAuthStatus) -> Seq<char> {
    match s {
        McpAuthStatus::Unsupported => "Unsupported"@,
        McpAuthStatus::NotLoggedIn => "Not logged in"@,
        McpAuthStatus::BearerToken => "Bearer token"@,
        McpAuthStatus::OAuth => "OAuth"@,
    }
}

pub fn app_server_auth_status_display(status: McpAuthStatus) -> (r: String)
    ensures
        r@ == auth_status_text(status),
{
    match status {
        McpAuthStatus::Unsupported => owned("Unsupported"),
        McpAuthStatus::NotLoggedIn => owned("Not logged in"),
        McpAuthStatus::BearerToken => owned("Bearer token"),
        McpAuthStatus::OAuth => owned("OAuth"),
    }
}

/// The authentication shown for a server: its reported status, or
/// `Unsupported` when none is reported.
pub open spec fn server_auth_text(snapshot: Map<Seq<char>, McpServerStatus>, name: Seq<char>) -> Seq<
    char,
> {
    if snapshot.contains_key(name) {
        auth_status_text(snapshot[name].auth_status)
    } else {
        "Unsupported"@
    }
}

/// The tool count shown for a server: the reported one, or 0.
pub open spec fn server_tool_count(snapshot: Map<Seq<char>, McpServerStatus>, name: Seq<char>) -> nat {
    if snapshot.contains_key(name) {
        snapshot[name].tool_count as nat
    } else {
        0
    }
}

pub open spec fn row_description_of(
    snapshot: Map<Seq<char>, McpServerStatus>,
    name: Seq<char>,
    c: McpServerConfig,
) -> Seq<char> {
    status_line_of(c) + " · Auth: "@ + server_auth_text(snapshot, name) + " · Tools: "@ + decimal(
        server_tool_count(snapshot, name),
    ) + " · "@ + transport_summary_of(c.transport)
}

fn auth_text(snapshot: &StrMap<McpServerStatus>, name: &str) -> (r: String)
    ensures
        r@ == server_auth_text(snapshot@, name@),
{
    match snapshot.get(name) {
        Some(status) => app_server_auth_status_display(status.auth_status),
        None => owned("Unsupported"),
    }
}

impl ChatWidget {
    /// `{status} · Auth: {auth} · Tools: {count} · {transport}`.
    pub fn manager_row_description(&self, server_name: &str, config: &McpServerConfig) -> (r: String)
        ensures
            r@ == row_description_of(self.mcp_status_snapshot@, server_name@, *config),
    {
        let auth_status = auth_text(&self.mcp_status_snapshot, server_name);
        let tool_count: usize = match self.mcp_status_snapshot.get(server_name) {
            Some(status) => status.tool_count,
            None => 0,
        };
        let mut r = mcp_status_line(config);
        push_str(&mut r, " · Auth: ");
        push_str(&mut r, auth_status.as_str());
        push_str(&mut r, " · Tools: ");
        push_decimal(&mut r, tool_count as u64);
        push_str(&mut r, " · ");
        let t = mcp_transport_summary(&config.transport);
        push_str(&mut r, t.as_str());
        r
    }
}

// ---------------------------------------------------------------------------
// The manager view
// ---------------------------------------------------------------------------

pub open spec fn manager_view_id() -> Seq<char> {
    "mcp-manager-selection"@
}

pub open spec fn server_actions_view_id() -> Seq<char> {
    "mcp-server-actions"@
}

/// The row of the manager for one server: chosen, it opens the server's actions.
pub open spec fn is_manager_item(
    snapshot: Map<Seq<char>, McpServerStatus>,
    s: McpServerEntry,
    item: SelectionItem,
) -> bool {
    &&& item.name@ == s.name@
    &&& opt_view(item.description) == Some(row_description_of(snapshot, s.name@, s.config))
    &&& opt_view(item.search_value) == Some(
        s.name@ + " "@ + transport_summary_of(s.config.transport),
    )
    &&& opt_view(item.selected_description) == Some("Press Enter to manage this MCP server."@)
    &&& !item.is_current
    &&& !item.is_disabled
    &&& item.actions@.len() == 1
    &&& item.actions@[0] matches AppEvent::OpenMcpServerActions { name } && name@ == s.name@
    &&& item.shortcut_actions@.len() == 0
    &&& item.dismiss_on_select
}

/// `item` is the manager row of one of `servers`.
pub open spec fn is_item_of_some_server(
    snapshot: Map<Seq<char>, McpServerStatus>,
    servers: Seq<McpServerEntry>,
    item: SelectionItem,
) -> bool {
    exists|k: int| 0 <= k < servers.len() && #[trigger] is_manager_item(snapshot, servers[k], item)
}

pub open spec fn is_header_line(l: HeaderLine, text: Seq<char>, style: LineStyle) -> bool {
    l.text@ == text && l.style == style
}

/// The manager: one row per server, in name order.
pub open spec fn is_manager_view(
    snapshot: Map<Seq<char>, McpServerStatus>,
    servers: Seq<McpServerEntry>,
    p: SelectionViewParams,
) -> bool {
    &&& opt_view(p.view_id) == Some(manager_view_id())
    &&& p.title is None
    &&& p.subtitle is None
    &&& p.header@.len() == 2
    &&& is_header_line(p.header@[0], "MCP Servers"@, LineStyle::Bold)
    &&& is_header_line(p.header@[1], "Manage globally configured MCP servers from /mcp."@, LineStyle::Dim)
    &&& p.footer_hint == Some(FooterHint::Standard)
    &&& p.is_searchable
    &&& opt_view(p.search_placeholder) == Some("Type to search MCP servers"@)
    &&& p.col_width_auto_all_rows
    &&& p.items@.len() == servers.len()
    &&& forall|i: int|
        0 <= i < p.items@.len() ==> #[trigger] is_item_of_some_server(snapshot, servers, p.items@[i])
    &&& forall|k: int|
        0 <= k < servers.len() ==> exists|i: int|
            0 <= i < p.items@.len() && (#[trigger] p.items@[i]).name@ == (
            #[trigger] servers[k]).name@
    &&& forall|i: int, j: int|
        0 <= i < j < p.items@.len() ==> compare_seq(
            (#[trigger] p.items@[j]).name@,
            (#[trigger] p.items@[i]).name@,
        ) != Order::Less
}

/// A server's name and its place in the list, for sorting.
pub struct ServerRef {
    pub name: String,
    pub index: usize,
}

impl StrictOrder for ServerRef {
    open spec fn precedes(self, other: Self) -> bool {
        compare_seq(self.name@, other.name@) == Order::Less
    }

    fn precedes_exec(&self, other: &Self) -> (r: bool) {
        compare_str(self.name.as_str(), other.name.as_str()) == Order::Less
    }

    proof fn lemma_asymmetric(a: Self, b: Self) {
        lemma_compare_flip(a.name@, b.name@);
    }

    proof fn lemma_transitive(a: Self, b: Self, c: Self) {
        lemma_compare_less_transitive(a.name@, b.name@, c.name@);
    }

    proof fn lemma_weak(a: Self, b: Self, c: Self) {
        lemma_compare_weak(a.name@, b.name@, c.name@);
    }
}

fn header_line(text: &str, style: LineStyle) -> (l: HeaderLine)
    ensures
        is_header_line(l, text@, style),
{
    HeaderLine { text: owned(text), style }
}

impl ChatWidget {
    fn manager_item(&self, s: &McpServerEntry) -> (item: SelectionItem)
        ensures
            is_manager_item(self.mcp_status_snapshot@, *s, item),
    {
        let transport = mcp_transport_summary(&s.config.transport);
        let mut search_value = s.name.clone();
        push_str(&mut search_value, " ");
        push_str(&mut search_value, transport.as_str());
        let description = self.manager_row_description(s.name.as_str(), &s.config);
        let mut actions: Vec<AppEvent> = Vec::new();
        actions.push(AppEvent::OpenMcpServerActions { name: s.name.clone() });
        SelectionItem {
            name: s.name.clone(),
            description: Some(description),
            selected_description: Some(owned("Press Enter to manage this MCP server.")),
            is_current: false,
            is_disabled: false,
            actions,
            shortcut_actions: Vec::new(),
            dismiss_on_select: true,
            search_value: Some(search_value),
        }
    }

    /// The manager view of the global servers.
    pub fn mcp_manager_popup_params(&self, servers: &Vec<McpServerEntry>) -> (p: SelectionViewParams)
        ensures
            is_manager_view(self.mcp_status_snapshot@, servers@, p),
    {
        let n = servers.len();
        let mut refs: Vec<ServerRef> = Vec::new();
        let mut i: usize = 0;
        while i < n
            invariant
                n == servers@.len(),
                i <= n,
                refs@.len() == i,
                forall|k: int|
                    0 <= k < i ==> (#[trigger] refs@[k]).index == k && refs@[k].name@
                        == servers@[k].name@,
            decreases n - i,
        {
            refs.push(ServerRef { name: servers[i].name.clone(), index: i });
            i = i + 1;
        }
        let ghost unsorted = refs@;
        let sorted = sort_stable(refs);
        proof {
            lemma_same_elements(sorted@, unsorted);
        }
        let mut items: Vec<SelectionItem> = Vec::new();
        let mut j: usize = 0;
        while j < n
            invariant
                n == servers@.len(),
                sorted@.len() == n,
                unsorted.len() == n,
                forall|x: ServerRef| sorted@.contains(x) <==> unsorted.contains(x),
                is_sorted(sorted@),
                forall|k: int|
                    0 <= k < n ==> (#[trigger] unsorted[k]).index == k && unsorted[k].name@
                        == servers@[k].name@,
                j <= n,
                items@.len() == j,
                forall|x: int|
                    0 <= x < j ==> is_manager_item(
                        self.mcp_status_snapshot@,
                        servers@[sorted@[x].index as int],
                        #[trigger] items@[x],
                    ) && sorted@[x].index < n,
            decreases n - j,
        {
            let r = &sorted[j];
            proof {
                assert(sorted@.contains(sorted@[j as int]));
                assert(unsorted.contains(sorted@[j as int]));
            }
            let k = r.index;
            assert(k < n);
            items.push(self.manager_item(&servers[k]));
            j = j + 1;
        }
        let mut header: Vec<HeaderLine> = Vec::new();
        header.push(header_line("MCP Servers", LineStyle::Bold));
        header.push(header_line("Manage globally configured MCP servers from /mcp.", LineStyle::Dim));
        let ghost it = items@;
        let p = SelectionViewParams {
            view_id: Some(owned("mcp-manager-selection")),
            title: None,
            subtitle: None,
            header,
            footer_hint: Some(FooterHint::Standard),
            items,
            is_searchable: true,
            search_placeholder: Some(owned("Type to search MCP servers")),
            col_width_auto_all_rows: true,
        };
        assert(p.items@ == it);
        proof {
            assert forall|x: int| 0 <= x < p.items@.len() implies #[trigger] is_item_of_some_server(
                self.mcp_status_snapshot@,
                servers@,
                p.items@[x],
            ) by {
                let k = sorted@[x].index as int;
                assert(is_manager_item(self.mcp_status_snapshot@, servers@[k], p.items@[x]));
            }
            assert forall|k: int| 0 <= k < servers@.len() implies exists|x: int|
                0 <= x < p.items@.len() && (#[trigger] p.items@[x]).name@ == (
                #[trigger] servers@[k]).name@ by {
                assert(unsorted.contains(unsorted[k]));
                assert(sorted@.contains(unsorted[k]));
                let x = choose|x: int| 0 <= x < sorted@.len() && sorted@[x] == unsorted[k];
                assert(p.items@[x].name@ == servers@[k].name@);
            }
            assert forall|x: int, y: int| 0 <= x < y < p.items@.len() implies compare_seq(
                (#[trigger] p.items@[y]).name@,
                (#[trigger] p.items@[x]).name@,
            ) != Order::Less by {
                assert(!sorted@[y].precedes(sorted@[x]));
                let kx = sorted@[x].index as int;
                let ky = sorted@[y].index as int;
                assert(sorted@.contains(sorted@[x]));
                assert(unsorted.contains(sorted@[x]));
                assert(sorted@.contains(sorted@[y]));
                assert(unsorted.contains(sorted@[y]));
                let ox = choose|o: int| 0 <= o < unsorted.len() && unsorted[o] == sorted@[x];
                let oy = choose|o: int| 0 <= o < unsorted.len() && unsorted[o] == sorted@[y];
                assert(sorted@[x].name@ == servers@[kx].name@);
                assert(sorted@[y].name@ == servers@[ky].name@);
            }
        }
        p
    }
}

// ---------------------------------------------------------------------------
// The actions of one server
// ---------------------------------------------------------------------------

/// The index of the first server named `name`.
pub open spec fn server_named(servers: Seq<McpServerEntry>, name: Seq<char>, i: int) -> bool {
    &&& 0 <= i < servers.len()
    &&& servers[i].name@ == name
    &&& forall|k: int| 0 <= k < i ==> (#[trigger] servers[k]).name@ != name
}

pub open spec fn has_server(servers: Seq<McpServerEntry>, name: Seq<char>) -> bool {
    exists|k: int| 0 <= k < servers.len() && (#[trigger] servers[k]).name@ == name
}

pub fn find_server(servers: &Vec<McpServerEntry>, name: &str) -> (r: Option<usize>)
    ensures
        match r {
            Some(i) => server_named(servers@, name@, i as int),
            None => !has_server(servers@, name@),
        },
{
    let n = servers.len();
    let mut i: usize = 0;
    while i < n
        invariant
            n == servers@.len(),
            i <= n,
            forall|k: int| 0 <= k < i ==> (#[trigger] servers@[k]).name@ != name@,
        decreases n - i,
    {
        if str_eq(servers[i].name.as_str(), name) {
            return Some(i);
        }
        i = i + 1;
    }
    None
}

/// The counts of a server's tools, resources and resource templates, as reported (or 0).
pub open spec fn server_counts(snapshot: Map<Seq<char>, McpServerStatus>, name: Seq<char>) -> (nat, nat, nat) {
    if snapshot.contains_key(name) {
        (
            snapshot[name].tool_count as nat,
            snapshot[name].resource_count as nat,
            snapshot[name].resource_template_count as nat,
        )
    } else {
        (0, 0, 0)
    }
}

/// The header of a server's actions view.
pub open spec fn actions_header_of(
    snapshot: Map<Seq<char>, McpServerStatus>,
    name: Seq<char>,
    c: McpServerConfig,
    config_path: Option<Seq<char>>,
) -> Seq<(Seq<char>, LineStyle)> {
    let counts = server_counts(snapshot, name);
    let head = seq![
        (name, LineStyle::Bold),
        (status_line_of(c), LineStyle::Dim),
        ("Transport: "@ + transport_summary_of(c.transport), LineStyle::Dim),
    ];
    let path: Seq<(Seq<char>, LineStyle)> = match config_path {
        Some(p) => seq![("Config: "@ + p, LineStyle::Dim)],
        None => seq![],
    };
    let tail = seq![
        ("Auth: "@ + server_auth_text(snapshot, name), LineStyle::Dim),
        (
            "Tools: "@ + decimal(counts.0) + " · Resources: "@ + decimal(counts.1)
                + " · Resource templates: "@ + decimal(counts.2),
            LineStyle::Dim,
        ),
    ];
    head + path + tail
}

/// A plain action row: its name and description, and the one event it sends.
pub open spec fn is_action_item(
    item: SelectionItem,
    name: Seq<char>,
    description: Seq<char>,
    event: AppEvent,
    dismiss: bool,
) -> bool {
    &&& item.name@ == name
    &&& opt_view(item.description) == Some(description)
    &&& item.selected_description is None
    &&& !item.is_current
    &&& !item.is_disabled
    &&& item.actions@ == seq![event]
    &&& item.shortcut_actions@.len() == 0
    &&& item.dismiss_on_select == dismiss
    &&& item.search_value is None
}

pub open spec fn names(e: AppEvent, server: Seq<char>) -> bool {
    match e {
        AppEvent::ViewMcpServerTools { name } => name@ == server,
        AppEvent::ReconnectMcpServer { name } => name@ == server,
        AppEvent::SetMcpServerEnabled { name, .. } => name@ == server,
        _ => false,
    }
}

/// The actions of one server: view its tools; reconnect it when it is
/// enabled; enable or disable it.
pub open spec fn is_server_actions_view(
    snapshot: Map<Seq<char>, McpServerStatus>,
    name: Seq<char>,
    c: McpServerConfig,
    config_path: Option<Seq<char>>,
    p: SelectionViewParams,
) -> bool {
    let header = actions_header_of(snapshot, name, c, config_path);
    let items = p.items@;
    let last = items.len() - 1;
    &&& opt_view(p.view_id) == Some(server_actions_view_id())
    &&& p.title is None
    &&& p.subtitle is None
    &&& p.header@.len() == header.len()
    &&& forall|i: int|
        0 <= i < header.len() ==> is_header_line(#[trigger] p.header@[i], header[i].0, header[i].1)
    &&& p.footer_hint == Some(FooterHint::Standard)
    &&& !p.is_searchable
    &&& p.search_placeholder is None
    &&& p.col_width_auto_all_rows
    &&& items.len() == (if c.enabled { 3int } else { 2int })
    &&& items[0].actions@.len() == 1 && names(items[0].actions@[0], name)
        && items[0].actions@[0] is ViewMcpServerTools
    &&& is_action_item(
        items[0],
        "View tools"@,
        "Show this server's tools and resources in the transcript."@,
        items[0].actions@[0],
        true,
    )
    &&& c.enabled ==> items[1].actions@.len() == 1 && names(items[1].actions@[0], name)
        && items[1].actions@[0] is ReconnectMcpServer && is_action_item(
        items[1],
        "Reconnect"@,
        "Reconnect configured MCP servers immediately."@,
        items[1].actions@[0],
        false,
    )
    &&& items[last].actions@.len() == 1 && names(items[last].actions@[0], name)
    &&& items[last].actions@[0] matches AppEvent::SetMcpServerEnabled { enabled, .. } && enabled
        == !c.enabled
    &&& is_action_item(
        items[last],
        if c.enabled {
            "Disable"@
        } else {
            "Enable"@
        },
        if c.enabled {
            "Disable this MCP server."@
        } else {
            "Enable this MCP server."@
        },
        items[last].actions@[0],
        false,
    )
}

fn action_item(name: &str, description: &str, event: AppEvent, dismiss: bool) -> (item: SelectionItem)
    ensures
        is_action_item(item, name@, description@, event, dismiss),
{
    let mut actions: Vec<AppEvent> = Vec::new();
    actions.push(event);
    assert(actions@ =~= seq![event]);
    SelectionItem {
        name: owned(name),
        description: Some(owned(description)),
        selected_description: None,
        is_current: false,
        is_disabled: false,
        actions,
        shortcut_actions: Vec::new(),
        dismiss_on_select: dismiss,
        search_value: None,
    }
}

fn dim_line(text: String) -> (l: HeaderLine)
    ensures
        is_header_line(l, text@, LineStyle::Dim),
{
    HeaderLine { text, style: LineStyle::Dim }
}

fn push_line(header: &mut Vec<HeaderLine>, l: HeaderLine, ghost_expected: Ghost<Seq<(Seq<char>, LineStyle)>>)
    requires
        old(header)@.len() < ghost_expected@.len(),
        is_header_line(l, ghost_expected@[old(header)@.len() as int].0, ghost_expected@[old(header)@.len() as int].1),
        forall|i: int|
            0 <= i < old(header)@.len() ==> is_header_line(
                #[trigger] old(header)@[i],
                ghost_expected@[i].0,
                ghost_expected@[i].1,
            ),
    ensures
        final(header)@.len() == old(header)@.len() + 1,
        forall|i: int|
            0 <= i < final(header)@.len() ==> is_header_line(
                #[trigger] final(header)@[i],
                ghost_expected@[i].0,
                ghost_expected@[i].1,
            ),
{
    header.push(l);
}

impl ChatWidget {
    fn server_actions_view(
        &self,
        server_name: &str,
        config: &McpServerConfig,
        config_path: Option<&str>,
    ) -> (p: SelectionViewParams)
        ensures
            is_server_actions_view(
                self.mcp_status_snapshot@,
                server_name@,
                *config,
                str_opt_view(config_path),
                p,
            ),
    {
        let ghost expected = actions_header_of(
            self.mcp_status_snapshot@,
            server_name@,
            *config,
            str_opt_view(config_path),
        );
        let (tool_count, resource_count, resource_template_count) = match self.mcp_status_snapshot.get(
            server_name,
        ) {
            Some(status) => (status.tool_count, status.resource_count, status.resource_template_count),
            None => (0usize, 0usize, 0usize),
        };
        let mut header: Vec<HeaderLine> = Vec::new();
        push_line(&mut header, HeaderLine { text: owned(server_name), style: LineStyle::Bold }, Ghost(expected));
        push_line(&mut header, dim_line(mcp_status_line(config)), Ghost(expected));
        let mut transport = owned("Transport: ");
        let t = mcp_transport_summary(&config.transport);
        push_str(&mut transport, t.as_str());
        push_line(&mut header, dim_line(transport), Ghost(expected));
        match config_path {
            Some(path) => {
                let mut line = owned("Config: ");
                push_str(&mut line, path);
                push_line(&mut header, dim_line(line), Ghost(expected));
            },
            None => {},
        }
        let mut auth = owned("Auth: ");
        let a = auth_text(&self.mcp_status_snapshot, server_name);
        push_str(&mut auth, a.as_str());
        push_line(&mut header, dim_line(auth), Ghost(expected));
        let mut counts = owned("Tools: ");
        push_decimal(&mut counts, tool_count as u64);
        push_str(&mut counts, " · Resources: ");
        push_decimal(&mut counts, resource_count as u64);
        push_str(&mut counts, " · Resource templates: ");
        push_decimal(&mut counts, resource_template_count as u64);
        push_line(&mut header, dim_line(counts), Ghost(expected));
        let mut items: Vec<SelectionItem> = Vec::new();
        items.push(
            action_item(
                "View tools",
                "Show this server's tools and resources in the transcript.",
                AppEvent::ViewMcpServerTools { name: owned(server_name) },
                true,
            ),
        );
        if config.enabled {
            items.push(
                action_item(
                    "Reconnect",
                    "Reconnect configured MCP servers immediately.",
                    AppEvent::ReconnectMcpServer { name: owned(server_name) },
                    false,
                ),
            );
        }
        let event = AppEvent::SetMcpServerEnabled { name: owned(server_name), enabled: !config.enabled };
        if config.enabled {
            items.push(action_item("Disable", "Disable this MCP server.", event, false));
        } else {
            items.push(action_item("Enable", "Enable this MCP server.", event, false));
        }
        SelectionViewParams {
            view_id: Some(owned("mcp-server-actions")),
            title: None,
            subtitle: None,
            header,
            footer_hint: Some(FooterHint::Standard),
            items,
            is_searchable: false,
            search_placeholder: None,
            col_width_auto_all_rows: true,
        }
    }

    /// The actions view of the server `server_name`, or the manager view when
    /// there is no such server.
    pub fn mcp_server_actions_popup_params(
        &self,
        servers: &Vec<McpServerEntry>,
        server_name: &str,
        config_path: Option<&str>,
    ) -> (p: SelectionViewParams)
        ensures
            has_server(servers@, server_name@) ==> exists|i: int|
                #[trigger] server_named(servers@, server_name@, i) && is_server_actions_view(
                    self.mcp_status_snapshot@,
                    server_name@,
                    servers@[i].config,
                    str_opt_view(config_path),
                    p,
                ),
            !has_server(servers@, server_name@) ==> is_manager_view(
                self.mcp_status_snapshot@,
                servers@,
                p,
            ),
    {
        match find_server(servers, server_name) {
            Some(i) => self.server_actions_view(server_name, &servers[i].config, config_path),
            None => self.mcp_manager_popup_params(servers),
        }
    }
}

// ---------------------------------------------------------------------------
// Following the inventory
// ---------------------------------------------------------------------------

/// The server statuses by name; a later status of the same name wins.
pub open spec fn statuses_by_name(s: Seq<McpServerStatus>) -> Map<Seq<char>, McpServerStatus>
    decreases s.len(),
{
    if s.len() == 0 {
        Map::empty()
    } else {
        statuses_by_name(s.drop_last()).insert(s.last().name@, s.last())
    }
}

/// What opening a server's actions does.
#[derive(Debug)]
pub enum McpServerActionsOpen {
    Error { message: String },
    Show { params: SelectionViewParams },
}

/// The views to put in place of the open ones, after the inventory changed.
#[derive(Debug)]
pub struct McpViewRefresh {
    /// For the manager view, when it is open.
    pub manager: SelectionViewParams,
    /// For the actions view of the server being managed, when there is one.
    pub server_actions: Option<SelectionViewParams>,
}

/// What a loaded inventory leads to.
#[derive(Debug)]
pub enum McpInventoryLoaded {
    /// Show the tools of this server in the transcript.
    ShowServerTools { name: String },
    Error { message: String },
    Refresh { views: McpViewRefresh },
}

/// What asking for a server's tools leads to.
#[derive(Debug)]
pub enum ViewMcpServerTools {
    /// Show them from the inventory at hand.
    ShowServerTools { name: String },
    /// Fetch the inventory (tools and authentication) first.
    FetchInventory,
}

/// What `/mcp` leads to.
#[derive(Debug)]
pub enum AddMcpOutput {
    /// Show the inventory-loading cell and fetch the full inventory.
    FetchFullInventory,
    /// No global server is configured.
    EmptyOutput,
    /// Show the manager and fetch the inventory (tools and authentication).
    ShowManager { params: SelectionViewParams },
}

impl ChatWidget {
    /// Opens the actions of the server `name`.
    pub fn open_mcp_server_actions(
        &mut self,
        name: String,
        servers: &Vec<McpServerEntry>,
        config_path: Option<&str>,
    ) -> (r: McpServerActionsOpen)
        ensures
            has_server(servers@, name@) ==> {
                &&& final(self).active_mcp_action_server == Some(name)
                &&& r matches McpServerActionsOpen::Show { params } && exists|i: int|
                    #[trigger] server_named(servers@, name@, i) && is_server_actions_view(
                        old(self).mcp_status_snapshot@,
                        name@,
                        servers@[i].config,
                        str_opt_view(config_path),
                        params,
                    )
            },
            !has_server(servers@, name@) ==> {
                &&& final(self).active_mcp_action_server == old(self).active_mcp_action_server
                &&& r matches McpServerActionsOpen::Error { message } && message@
                    == "No global MCP server named `"@ + name@ + "`."@
            },
            final(self).pending_mcp_tools_view == old(self).pending_mcp_tools_view,
            final(self).mcp_status_snapshot@ == old(self).mcp_status_snapshot@,
    {
        match find_server(servers, name.as_str()) {
            None => {
                let mut message = owned("No global MCP server named `");
                push_str(&mut message, name.as_str());
                push_str(&mut message, "`.");
                McpServerActionsOpen::Error { message }
            },
            Some(i) => {
                let params = self.server_actions_view(name.as_str(), &servers[i].config, config_path);
                self.active_mcp_action_server = Some(name);
                McpServerActionsOpen::Show { params }
            },
        }
    }

    /// The views to refresh after the configuration or inventory changed; a
    /// managed server that is gone is no longer managed.
    pub fn refresh_mcp_manager_views(
        &mut self,
        servers: &Vec<McpServerEntry>,
        config_path: Option<&str>,
    ) -> (r: McpViewRefresh)
        ensures
            is_manager_view(old(self).mcp_status_snapshot@, servers@, r.manager),
            match old(self).active_mcp_action_server {
                Some(n) => if has_server(servers@, n@) {
                    &&& final(self).active_mcp_action_server == Some(n)
                    &&& r.server_actions matches Some(p) && exists|i: int|
                        #[trigger] server_named(servers@, n@, i) && is_server_actions_view(
                            old(self).mcp_status_snapshot@,
                            n@,
                            servers@[i].config,
                            str_opt_view(config_path),
                            p,
                        )
                } else {
                    final(self).active_mcp_action_server is None && r.server_actions is None
                },
                None => final(self).active_mcp_action_server is None && r.server_actions is None,
            },
            final(self).pending_mcp_tools_view == old(self).pending_mcp_tools_view,
            final(self).mcp_status_snapshot@ == old(self).mcp_status_snapshot@,
    {
        let manager = self.mcp_manager_popup_params(servers);
        let server_actions = match &self.active_mcp_action_server {
            None => None,
            Some(n) => match find_server(servers, n.as_str()) {
                Some(i) => Some(self.server_actions_view(n.as_str(), &servers[i].config, config_path)),
                None => None,
            },
        };
        if server_actions.is_none() {
            self.active_mcp_action_server = None;
        }
        McpViewRefresh { manager, server_actions }
    }

    /// Takes in a loaded inventory: shows the tools of the server that was
    /// asked for, or refreshes the views.
    pub fn on_mcp_inventory_loaded(
        &mut self,
        statuses: Vec<McpServerStatus>,
        servers: &Vec<McpServerEntry>,
        config_path: Option<&str>,
    ) -> (r: McpInventoryLoaded)
        ensures
            final(self).mcp_status_snapshot@ == statuses_by_name(statuses@),
            final(self).pending_mcp_tools_view is None,
            match old(self).pending_mcp_tools_view {
                Some(n) => if statuses_by_name(statuses@).contains_key(n@) {
                    &&& r matches McpInventoryLoaded::ShowServerTools { name } && name@ == n@
                    &&& final(self).active_mcp_action_server is None
                } else {
                    &&& r matches McpInventoryLoaded::Error { message } && message@
                        == "Failed to load MCP inventory for `"@ + n@ + "`."@
                    &&& final(self).active_mcp_action_server == old(self).active_mcp_action_server
                },
                None => {
                    &&& r matches McpInventoryLoaded::Refresh { views }
                    &&& is_manager_view(statuses_by_name(statuses@), servers@, views.manager)
                    &&& match old(self).active_mcp_action_server {
                        Some(n) => if has_server(servers@, n@) {
                            &&& final(self).active_mcp_action_server == Some(n)
                            &&& views.server_actions matches Some(p) && exists|i: int|
                                #[trigger] server_named(servers@, n@, i)
                                    && is_server_actions_view(
                                    statuses_by_name(statuses@),
                                    n@,
                                    servers@[i].config,
                                    str_opt_view(config_path),
                                    p,
                                )
                        } else {
                            final(self).active_mcp_action_server is None
                                && views.server_actions is None
                        },
                        None => final(self).active_mcp_action_server is None
                            && views.server_actions is None,
                    }
                },
            },
    {
        let ghost all = statuses@;
        let mut rest = statuses;
        let mut snapshot: StrMap<McpServerStatus> = StrMap::new();
        let n = rest.len();
        let mut i: usize = 0;
        while rest.len() > 0
            invariant
                n == all.len(),
                i <= n,
                rest@ == all.subrange(i as int, n as int),
                snapshot@ == statuses_by_name(all.subrange(0, i as int)),
            decreases rest@.len(),
        {
            let status = rest.remove(0);
            assert(status == all[i as int]);
            assert(all.subrange(0, i + 1).drop_last() =~= all.subrange(0, i as int));
            let name = status.name.clone();
            snapshot.insert(name, status);
            i = i + 1;
            assert(rest@ =~= all.subrange(i as int, n as int));
        }
        assert(all.subrange(0, n as int) =~= all);
        self.mcp_status_snapshot = snapshot;
        match self.pending_mcp_tools_view.take() {
            Some(server_name) => {
                if self.mcp_status_snapshot.contains_key(server_name.as_str()) {
                    self.active_mcp_action_server = None;
                    McpInventoryLoaded::ShowServerTools { name: server_name }
                } else {
                    let mut message = owned("Failed to load MCP inventory for `");
                    push_str(&mut message, server_name.as_str());
                    push_str(&mut message, "`.");
                    McpInventoryLoaded::Error { message }
                }
            },
            None => McpInventoryLoaded::Refresh {
                views: self.refresh_mcp_manager_views(servers, config_path),
            },
        }
    }

    /// Shows the tools of the server `name`, fetching the inventory first
    /// when it holds no status for it.
    pub fn view_mcp_server_tools(&mut self, name: String) -> (r: ViewMcpServerTools)
        ensures
            old(self).mcp_status_snapshot@.contains_key(name@) ==> {
                &&& r matches ViewMcpServerTools::ShowServerTools { name: n } && n == name
                &&& final(self).active_mcp_action_server is None
                &&& final(self).pending_mcp_tools_view == old(self).pending_mcp_tools_view
            },
            !old(self).mcp_status_snapshot@.contains_key(name@) ==> {
                &&& r is FetchInventory
                &&& final(self).pending_mcp_tools_view == Some(name)
                &&& final(self).active_mcp_action_server == old(self).active_mcp_action_server
            },
            final(self).mcp_status_snapshot@ == old(self).mcp_status_snapshot@,
    {
        if self.mcp_status_snapshot.contains_key(name.as_str()) {
            self.active_mcp_action_server = None;
            ViewMcpServerTools::ShowServerTools { name }
        } else {
            self.pending_mcp_tools_view = Some(name);
            ViewMcpServerTools::FetchInventory
        }
    }

    /// `/mcp`: the full inventory, or the manager of the global servers.
    pub fn add_mcp_output(&mut self, detail: McpServerStatusDetail, servers: &Vec<McpServerEntry>) -> (r:
        AddMcpOutput)
        ensures
            detail == McpServerStatusDetail::Full ==> {
                &&& r is FetchFullInventory
                &&& final(self).active_mcp_action_server == old(self).active_mcp_action_server
                &&& final(self).pending_mcp_tools_view == old(self).pending_mcp_tools_view
            },
            detail != McpServerStatusDetail::Full && servers@.len() == 0 ==> {
                &&& r is EmptyOutput
                &&& final(self).active_mcp_action_server == old(self).active_mcp_action_server
                &&& final(self).pending_mcp_tools_view == old(self).pending_mcp_tools_view
            },
            detail != McpServerStatusDetail::Full && servers@.len() > 0 ==> {
                &&& r matches AddMcpOutput::ShowManager { params } && is_manager_view(
                    old(self).mcp_status_snapshot@,
                    servers@,
                    params,
                )
                &&& final(self).active_mcp_action_server is None
                &&& final(self).pending_mcp_tools_view is None
            },
            final(self).mcp_status_snapshot@ == old(self).mcp_status_snapshot@,
    {
        if detail == McpServerStatusDetail::Full {
            return AddMcpOutput::FetchFullInventory;
        }
        if servers.len() == 0 {
            return AddMcpOutput::EmptyOutput;
        }
        self.active_mcp_action_server = None;
        self.pending_mcp_tools_view = None;
        AddMcpOutput::ShowManager { params: self.mcp_manager_popup_params(servers) }
    }
}

} // verus!
