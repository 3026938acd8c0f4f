//! Serving the dashboard.

use vstd::prelude::*;
use vstd::string::*;
use crate::cli::commands::report;
use crate::cli::commands::report::{CommandError, Language, LineStyle, Report};
#[allow(unused_imports)]
use crate::cli::commands::report::{CommandErrorView, ReportLineView};
use crate::text;

verus! {

/// What carries the dashboard to other machines.
#[derive(Debug, Clone, Copy, PartialEq, Eq, Structural)]
pub enum TunnelProvider {
    Tailscale,
}

/// A command on the dashboard.
#[derive(Debug)]
pub enum WebCommand {
    Serve {
        port: u16,
        assets: String,
        token: Option<String>,
        tunnel: Option<TunnelProvider>,
        tunnel_public: bool,
    },
}

/// Who can reach the dashboard through a tunnel.
#[derive(Debug, Clone, Copy, PartialEq, Eq, Structural)]
pub enum TunnelMode {
    /// Those of a private network.
    Serve,
    /// Anyone.
    Funnel,
}

/// How the dashboard is served.
#[derive(Debug)]
pub struct ServePlan {
    /// Where it listens: only this machine can reach it there.
    pub address: String,
    pub assets: String,
    pub token: String,
    pub tunnel: Option<TunnelMode>,
}

/// Where the dashboard listens.
pub open spec fn loopback(port: u16) -> Seq<char> {
    "127.0.0.1:"@ + text::decimal(port as nat)
}

/// Where the dashboard listens.
pub fn loopback_address(port: u16) -> (r: String)
    ensures
        r@ == loopback(port),
{
    let number = text::number_text(port as u64);
    text::concat2("127.0.0.1:", number.as_str())
}

/// Who can reach the dashboard through a tunnel that was asked for.
pub open spec fn tunnel_mode(tunnel: Option<TunnelProvider>, public: bool) -> Option<TunnelMode> {
    match tunnel {
        Some(TunnelProvider::Tailscale) => Some(
            if public {
                TunnelMode::Funnel
            } else {
                TunnelMode::Serve
            },
        ),
        None => None,
    }
}

/// A digit of a random token.
pub open spec fn is_token_digit(c: char) -> bool {
    ('0' <= c && c <= '9') || ('a' <= c && c <= 'f')
}

/// The shape of a random token: lower-case hexadecimal digits in groups of 8, 4, 4, 4
/// and 12, with a `-` between two groups. The third group starts with the version, and
/// two bits of what the fourth starts with are fixed.
pub open spec fn is_token(token: Seq<char>) -> bool {
    &&& token.len() == 36
    &&& forall|i: int|
        0 <= i < 36 ==> if i == 8 || i == 13 || i == 18 || i == 23 {
            #[trigger] token[i] == '-'
        } else {
            is_token_digit(token[i])
        }
    &&& token[14] == '4'
    &&& token[19] == '8' || token[19] == '9' || token[19] == 'a' || token[19] == 'b'
}

/// A token that nobody else knows: `uuid::Uuid::new_v4`, as text. Its `Display` writes
/// the lower-case digits in hyphenated groups, and `new_v4` sets the bits of the version
/// and of the variant. Every call gives another token, so nothing is said of the other
/// digits.
#[verifier::external_body]
fn random_token() -> (r: String)
    ensures
        is_token(r@),
{
    uuid::Uuid::new_v4().to_string()
}

/// How the dashboard is served: not without the files that it consists of. `fallback` is
/// the token where none was given.
pub fn serve_plan(cmd: WebCommand, has_index: bool, fallback: String) -> (r: Result<
    ServePlan,
    CommandError,
>)
    ensures
        match cmd {
            WebCommand::Serve { port, assets, token, tunnel, tunnel_public } => match r {
                Ok(plan) => {
                    &&& has_index
                    &&& plan.address@ == loopback(port)
                    &&& plan.assets == assets
                    &&& plan.token == (match token {
                        Some(token) => token,
                        None => fallback,
                    })
                    &&& plan.tunnel == tunnel_mode(tunnel, tunnel_public)
                },
                Err(error) => {
                    &&& !has_index
                    &&& error@ == CommandErrorView::Message(
                        "assets directory '"@ + assets@
                            + "' has no index.html — build the frontend first (pnpm build:web)"@,
                    )
                },
            },
        },
{
    let WebCommand::Serve { port, assets, token, tunnel, tunnel_public } = cmd;
    if !has_index {
        return Err(
            CommandError::Message(
                text::concat3(
                    "assets directory '",
                    assets.as_str(),
                    "' has no index.html — build the frontend first (pnpm build:web)",
                ),
            ),
        );
    }
    let tunnel = match tunnel {
        Some(TunnelProvider::Tailscale) => Some(
            if tunnel_public {
                TunnelMode::Funnel
            } else {
                TunnelMode::Serve
            },
        ),
        None => None,
    };
    Ok(
        ServePlan {
            address: loopback_address(port),
            assets,
            token: match token {
                Some(token) => token,
                None => fallback,
            },
            tunnel,
        },
    )
}

/// Whether a token is to be drawn: none was given, and the dashboard is served.
pub fn needs_token(cmd: &WebCommand, has_index: bool) -> (r: bool)
    ensures
        r == (has_index && cmd->token is None),
{
    let WebCommand::Serve { token, .. } = cmd;
    has_index && token.is_none()
}

/// How the dashboard is served, with a random token where none was given.
pub fn execute(cmd: WebCommand, has_index: bool) -> (r: Result<ServePlan, CommandError>)
    ensures
        r is Ok <==> has_index,
        match cmd {
            WebCommand::Serve { port, assets, token, tunnel, tunnel_public } => match r {
                Ok(plan) => {
                    &&& plan.address@ == loopback(port)
                    &&& plan.assets == assets
                    &&& match token {
                        Some(token) => plan.token == token,
                        None => is_token(plan.token@),
                    }
                    &&& plan.tunnel == tunnel_mode(tunnel, tunnel_public)
                },
                Err(error) => error@ == CommandErrorView::Message(
                    "assets directory '"@ + assets@
                        + "' has no index.html — build the frontend first (pnpm build:web)"@,
                ),
            },
        },
{
    let fallback = if needs_token(&cmd, has_index) {
        random_token()
    } else {
        String::new()
    };
    serve_plan(cmd, has_index, fallback)
}

/// The address of the dashboard, with the token that opens it.
pub open spec fn dashboard_url(base: Seq<char>, token: Seq<char>) -> Seq<char> {
    base + "/?token="@ + token
}

/// The address of the dashboard, with the token that opens it.
pub fn url_with_token(base: &str, token: &str) -> (r: String)
    ensures
        r@ == dashboard_url(base@, token@),
{
    text::concat3(base, "/?token=", token)
}

/// The address of the dashboard on this machine.
pub fn local_url(port: u16, token: &str) -> (r: String)
    ensures
        r@ == dashboard_url("http://"@ + loopback(port), token@),
{
    let address = loopback_address(port);
    let base = text::concat2("http://", address.as_str());
    url_with_token(base.as_str(), token)
}

/// What is said of the address on this machine, where there is another.
pub open spec fn local_lines(language: Language, local: Option<Seq<char>>) -> Seq<ReportLineView> {
    match local {
        Some(url) => seq![
            report::line(LineStyle::Info, report::said(language, "Local:"@, "本地："@) + " "@ + url),
        ],
        None => seq![],
    }
}

/// What is said once the dashboard can be reached.
pub fn serving_report(language: Language, primary_url: &str, local_url: Option<&str>) -> (r: Report)
    ensures
        r@ == seq![
            report::line(
                LineStyle::Highlight,
                report::said(language, "Local Web Dashboard"@, "本地 Web 控制台"@),
            ),
            report::line(LineStyle::Success, primary_url@),
        ] + local_lines(
            language,
            match local_url {
                Some(url) => Some(url@),
                None => None,
            },
        ) + seq![
            report::line(
                LineStyle::Info,
                report::said(
                    language,
                    "This URL grants full control of your providers and settings — do not share it."@,
                    "该地址可完全控制你的供应商与设置，请勿分享。"@,
                ),
            ),
            report::line(
                LineStyle::Info,
                report::said(language, "Press Ctrl-C to stop."@, "按 Ctrl-C 停止。"@),
            ),
        ],
{
    let mut r = Report::new();
    r.push(LineStyle::Highlight, report::say(language, "Local Web Dashboard", "本地 Web 控制台").to_owned());
    r.push(LineStyle::Success, primary_url.to_owned());
    let ghost head = seq![
        report::line(
            LineStyle::Highlight,
            report::said(language, "Local Web Dashboard"@, "本地 Web 控制台"@),
        ),
        report::line(LineStyle::Success, primary_url@),
    ];
    assert(r@ =~= head);
    if let Some(url) = local_url {
        r.push(LineStyle::Info, text::concat3(report::say(language, "Local:", "本地："), " ", url));
    }
    let ghost local = match local_url {
        Some(url) => Some(url@),
        None => None,
    };
    assert(r@ =~= head + local_lines(language, local));
    r.push(
        LineStyle::Info,
        report::say(
            language,
            "This URL grants full control of your providers and settings — do not share it.",
            "该地址可完全控制你的供应商与设置，请勿分享。",
        ).to_owned(),
    );
    r.push(LineStyle::Info, report::say(language, "Press Ctrl-C to stop.", "按 Ctrl-C 停止。").to_owned());
    assert(r@ =~= head + local_lines(language, local) + seq![
        report::line(
            LineStyle::Info,
            report::said(
                language,
                "This URL grants full control of your providers and settings — do not share it."@,
                "该地址可完全控制你的供应商与设置，请勿分享。"@,
            ),
        ),
        report::line(LineStyle::Info, report::said(language, "Press Ctrl-C to stop."@, "按 Ctrl-C 停止。"@)),
    ]);
    r
}

/// What is said before a tunnel is taken down.
pub fn teardown_report(language: Language) -> (r: Report)
    ensures
        r@ == seq![
            report::line(
                LineStyle::Info,
                report::said(language, "Tearing down tunnel…"@, "正在拆除隧道…"@),
            ),
        ],
{
    let mut r = Report::new();
    r.push(
        LineStyle::Info,
        report::say(language, "Tearing down tunnel…", "正在拆除隧道…").to_owned(),
    );
    assert(r@ =~= seq![
        report::line(
            LineStyle::Info,
            report::said(language, "Tearing down tunnel…"@, "正在拆除隧道…"@),
        ),
    ]);
    r
}

/// What is said before anyone can reach the dashboard.
pub fn public_warning(language: Language) -> (r: &'static str)
    ensures
        r@ == report::said(
            language,
            "⚠ PUBLIC tunnel: this dashboard will be reachable by ANYONE with the URL, and it can read/write your provider API keys. Prefer the private tailnet (drop --tunnel-public) unless you really need public access."@,
            "⚠ 公网隧道：该控制台将对任何拿到 URL 的人开放，且能读写你的 provider 密钥。除非确有需要，建议改用私有 tailnet（去掉 --tunnel-public）。"@,
        ),
{
    report::say(
        language,
        "⚠ PUBLIC tunnel: this dashboard will be reachable by ANYONE with the URL, and it can read/write your provider API keys. Prefer the private tailnet (drop --tunnel-public) unless you really need public access.",
        "⚠ 公网隧道：该控制台将对任何拿到 URL 的人开放，且能读写你的 provider 密钥。除非确有需要，建议改用私有 tailnet（去掉 --tunnel-public）。",
    )
}

/// Nobody outside of a private network can reach the dashboard unless that was asked
/// for.
pub proof fn law_public_only_when_asked(tunnel: Option<TunnelProvider>, public: bool)
    ensures
        tunnel_mode(tunnel, public) == Some(TunnelMode::Funnel) <==> tunnel is Some && public,
{
}

} // verus!
