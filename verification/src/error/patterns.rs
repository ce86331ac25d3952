//! Known error messages of ops tools and what to do about them: each
//! pattern names the tool, the kind of error, an explanation and
//! solutions. Patterns are regular expressions matched by the `regex`
//! crate.
use crate::kubectl::RiskLevel;
use crate::matching::{regex_captures, regex_captures_of, regex_is_match, regex_matches};
use crate::text::{contains, occurs_at, opt_view, owned, replace_all, replace_str, views};
use vstd::prelude::*;

verus! {

/// A way to resolve an error.
#[derive(Debug, Clone)]
pub struct Solution {
    pub description: String,
    /// The command to run, if there is one.
    pub command: Option<String>,
    pub risk_level: RiskLevel,
}

/// What an error means and how to resolve it.
#[derive(Debug, Clone)]
pub struct ErrorExplanation {
    pub error_type: String,
    pub reason: String,
    pub possible_causes: Vec<String>,
    pub solutions: Vec<Solution>,
    /// Position of the recommended solution.
    pub recommended_solution: usize,
    pub documentation_links: Vec<String>,
}

/// A known error: the expression that recognises it, the tool, the kind of
/// error, an explanation and solutions.
#[derive(Debug, Clone)]
pub struct ErrorPattern {
    pub pattern: String,
    pub tool: String,
    pub error_type: String,
    pub explanation_template: String,
    pub solutions: Vec<Solution>,
}

/// Recognises known errors.
pub struct PatternMatcher {
    patterns: Vec<ErrorPattern>,
}

/// A solution as plain values.
pub open spec fn solution_view(s: Solution) -> (Seq<char>, Option<Seq<char>>, RiskLevel) {
    (s.description@, opt_view(s.command), s.risk_level)
}

/// Solutions as plain values.
pub open spec fn solutions_view(v: Seq<Solution>) -> Seq<(Seq<char>, Option<Seq<char>>, RiskLevel)> {
    v.map_values(|s: Solution| solution_view(s))
}

/// A pattern as plain values: expression, tool, kind of error,
/// explanation and solutions.
pub open spec fn error_pattern_view(p: ErrorPattern) -> (
    Seq<char>,
    Seq<char>,
    Seq<char>,
    Seq<char>,
    Seq<(Seq<char>, Option<Seq<char>>, RiskLevel)>,
) {
    (p.pattern@, p.tool@, p.error_type@, p.explanation_template@, solutions_view(p.solutions@))
}

impl View for PatternMatcher {
    /// The patterns, tried in order.
    type V = Seq<(Seq<char>, Seq<char>, Seq<char>, Seq<char>, Seq<(Seq<char>, Option<Seq<char>>, RiskLevel)>)>;

    closed spec fn view(&self) -> Self::V {
        self.patterns@.map_values(|p: ErrorPattern| error_pattern_view(p))
    }
}

/// Number of built-in patterns.
pub const BUILTIN_PATTERN_COUNT: usize = 7;

/// The built-in pattern at position `k`; more specific patterns come first.
pub open spec fn builtin_error_pattern(k: int) -> (
    Seq<char>,
    Seq<char>,
    Seq<char>,
    Seq<char>,
    Seq<(Seq<char>, Option<Seq<char>>, RiskLevel)>,
) {
    if k == 0 {
        (r"(?i)ERROR\s+1064.*database\.(mysql|sql)"@, "drush"@, "Drush SQL File Execution Error"@, "drush sqlq 期望 SQL 語句，不能直接讀取檔案"@, seq![("使用 sql:cli 搭配重定向（推薦）"@, Some("vendor/bin/drush sql:cli < {filename}"@), RiskLevel::Medium), ("使用 cat + pipe"@, Some("cat {filename} | vendor/bin/drush sqlq"@), RiskLevel::Medium), ("使用 mysql 直接導入"@, Some("mysql -u user -p database < {filename}"@), RiskLevel::Medium)])
    } else if k == 1 {
        (r"(?i)ERROR\s+1064"@, "mysql"@, "SQL Syntax Error"@, "SQL 語法錯誤，MySQL 無法解析您的 SQL 語句"@, seq![("檢查 SQL 語法，確保關鍵字正確"@, None, RiskLevel::Low), ("如果使用保留字，請用反引號包裹：`table`"@, None, RiskLevel::Low)])
    } else if k == 2 {
        (r"(?i)(forbidden|User.*cannot)"@, "kubectl"@, "Kubernetes RBAC Permission Denied"@, "您沒有執行此操作的權限"@, seq![("檢查您的 RBAC 權限"@, Some("kubectl auth can-i {verb} {resource}"@), RiskLevel::Low), ("聯繫集群管理員申請權限"@, None, RiskLevel::Low)])
    } else if k == 3 {
        (r"Cannot connect to the Docker daemon"@, "docker"@, "Docker Daemon Not Running"@, "Docker daemon 未執行或無法連接"@, seq![("啟動 Docker daemon（macOS）"@, Some("open -a Docker"@), RiskLevel::Low), ("啟動 Docker daemon（Linux）"@, Some("sudo systemctl start docker"@), RiskLevel::Medium), ("檢查 Docker daemon 狀態"@, Some("docker info"@), RiskLevel::Low)])
    } else if k == 4 {
        (r"ERROR 1045|Access denied"@, "mysql"@, "MySQL Authentication Failed"@, "用戶名或密碼錯誤，無法連接資料庫"@, seq![("檢查用戶名和密碼"@, None, RiskLevel::Low), ("查看用戶權限"@, Some("SELECT user, host FROM mysql.user;"@), RiskLevel::Low)])
    } else if k == 5 {
        (r"current-context is not set"@, "kubectl"@, "Kubectl Context Not Set"@, "kubectl 沒有設定當前上下文"@, seq![("查看可用的上下文"@, Some("kubectl config get-contexts"@), RiskLevel::Low), ("設定當前上下文"@, Some("kubectl config use-context {context-name}"@), RiskLevel::Low)])
    } else if k == 6 {
        (r"Unable to find image|No such image"@, "docker"@, "Docker Image Not Found"@, "找不到指定的 Docker 映像"@, seq![("拉取映像"@, Some("docker pull {image-name}"@), RiskLevel::Low), ("查看本地映像"@, Some("docker images"@), RiskLevel::Low)])
    } else {
        (seq![], seq![], seq![], seq![], seq![])
    }
}

/// The built-in patterns, in the order they are tried.
pub open spec fn builtin_error_patterns() -> Seq<
    (Seq<char>, Seq<char>, Seq<char>, Seq<char>, Seq<(Seq<char>, Option<Seq<char>>, RiskLevel)>),
> {
    Seq::new(BUILTIN_PATTERN_COUNT as nat, |k: int| builtin_error_pattern(k))
}

/// The expression for a SQL file name such as `database.mysql`.
pub const SQL_FILE_PATTERN: &'static str = r"(?:^|\s)([a-zA-Z0-9_-]+\.(mysql|sql))";

/// The SQL file named in an error, if any.
pub open spec fn sql_file_in(error: Seq<char>) -> Option<Seq<char>> {
    match regex_captures_of(SQL_FILE_PATTERN@, error) {
        Some(c) => if c.len() > 1 {
            c[1]
        } else {
            None
        },
        None => None,
    }
}

/// A solution with `{filename}` in its command replaced by `fname`, when
/// there is one.
pub open spec fn with_filename(
    s: (Seq<char>, Option<Seq<char>>, RiskLevel),
    fname: Option<Seq<char>>,
) -> (Seq<char>, Option<Seq<char>>, RiskLevel) {
    (
        s.0,
        match s.1 {
            Some(c) => Some(
                match fname {
                    Some(f) => replace_all(c, "{filename}"@, f),
                    None => c,
                },
            ),
            None => None,
        },
        s.2,
    )
}

/// The explanation a matched pattern gives, as plain values: kind of error,
/// reason, causes, solutions (with the file name filled in), the first
/// solution recommended, and no links.
pub open spec fn explanation_of(
    p: (Seq<char>, Seq<char>, Seq<char>, Seq<char>, Seq<(Seq<char>, Option<Seq<char>>, RiskLevel)>),
    fname: Option<Seq<char>>,
) -> (Seq<char>, Seq<char>, Seq<Seq<char>>, Seq<(Seq<char>, Option<Seq<char>>, RiskLevel)>, usize, Seq<Seq<char>>) {
    (
        p.2,
        p.3,
        seq!["工具："@ + p.1, "命令格式不正確"@, "環境配置問題"@],
        p.4.map_values(|s: (Seq<char>, Option<Seq<char>>, RiskLevel)| with_filename(s, fname)),
        0usize,
        seq![],
    )
}

/// The explanation of `error` by the first of `pats` that matches it.
pub open spec fn match_with(
    pats: Seq<(Seq<char>, Seq<char>, Seq<char>, Seq<char>, Seq<(Seq<char>, Option<Seq<char>>, RiskLevel)>)>,
    error: Seq<char>,
) -> Option<(Seq<char>, Seq<char>, Seq<Seq<char>>, Seq<(Seq<char>, Option<Seq<char>>, RiskLevel)>, usize, Seq<Seq<char>>)>
    decreases pats.len(),
{
    if pats.len() == 0 {
        None
    } else if regex_matches(pats[0].0, error) {
        Some(explanation_of(pats[0], sql_file_in(error)))
    } else {
        match_with(pats.drop_first(), error)
    }
}

/// An explanation as plain values.
pub open spec fn explanation_view(e: ErrorExplanation) -> (
    Seq<char>,
    Seq<char>,
    Seq<Seq<char>>,
    Seq<(Seq<char>, Option<Seq<char>>, RiskLevel)>,
    usize,
    Seq<Seq<char>>,
) {
    (
        e.error_type@,
        e.reason@,
        views(e.possible_causes@),
        solutions_view(e.solutions@),
        e.recommended_solution,
        views(e.documentation_links@),
    )
}

/// Appends a solution to `v`.
fn push_solution(v: &mut Vec<Solution>, description: &str, command: Option<&str>, risk_level: RiskLevel)
    ensures
        solutions_view(final(v)@) == solutions_view(old(v)@).push(
            (
                description@,
                match command {
                    Some(c) => Some(c@),
                    None => None,
                },
                risk_level,
            ),
        ),
{
    let ghost before = solutions_view(v@);
    let cmd = match command {
        Some(c) => Some(owned(c)),
        None => None,
    };
    v.push(Solution { description: owned(description), command: cmd, risk_level });
    assert(solutions_view(v@) =~= before.push(
        (
            description@,
            match command {
                Some(c) => Some(c@),
                None => None,
            },
            risk_level,
        ),
    ));
}

/// The built-in pattern at position `k`.
fn builtin_pattern_at(k: usize) -> (r: ErrorPattern)
    requires
        k < BUILTIN_PATTERN_COUNT,
    ensures
        error_pattern_view(r) == builtin_error_pattern(k as int),
{
    if k == 0 {
        let mut solutions: Vec<Solution> = Vec::new();
        push_solution(&mut solutions, "使用 sql:cli 搭配重定向（推薦）", Some("vendor/bin/drush sql:cli < {filename}"), RiskLevel::Medium);
        push_solution(&mut solutions, "使用 cat + pipe", Some("cat {filename} | vendor/bin/drush sqlq"), RiskLevel::Medium);
        push_solution(&mut solutions, "使用 mysql 直接導入", Some("mysql -u user -p database < {filename}"), RiskLevel::Medium);
        assert(solutions_view(solutions@) =~= seq![("使用 sql:cli 搭配重定向（推薦）"@, Some("vendor/bin/drush sql:cli < {filename}"@), RiskLevel::Medium), ("使用 cat + pipe"@, Some("cat {filename} | vendor/bin/drush sqlq"@), RiskLevel::Medium), ("使用 mysql 直接導入"@, Some("mysql -u user -p database < {filename}"@), RiskLevel::Medium)]);
        ErrorPattern { pattern: owned(r"(?i)ERROR\s+1064.*database\.(mysql|sql)"), tool: owned("drush"), error_type: owned("Drush SQL File Execution Error"), explanation_template: owned("drush sqlq 期望 SQL 語句，不能直接讀取檔案"), solutions }
    } else if k == 1 {
        let mut solutions: Vec<Solution> = Vec::new();
        push_solution(&mut solutions, "檢查 SQL 語法，確保關鍵字正確", None, RiskLevel::Low);
        push_solution(&mut solutions, "如果使用保留字，請用反引號包裹：`table`", None, RiskLevel::Low);
        assert(solutions_view(solutions@) =~= seq![("檢查 SQL 語法，確保關鍵字正確"@, None, RiskLevel::Low), ("如果使用保留字，請用反引號包裹：`table`"@, None, RiskLevel::Low)]);
        ErrorPattern { pattern: owned(r"(?i)ERROR\s+1064"), tool: owned("mysql"), error_type: owned("SQL Syntax Error"), explanation_template: owned("SQL 語法錯誤，MySQL 無法解析您的 SQL 語句"), solutions }
    } else if k == 2 {
        let mut solutions: Vec<Solution> = Vec::new();
        push_solution(&mut solutions, "檢查您的 RBAC 權限", Some("kubectl auth can-i {verb} {resource}"), RiskLevel::Low);
        push_solution(&mut solutions, "聯繫集群管理員申請權限", None, RiskLevel::Low);
        assert(solutions_view(solutions@) =~= seq![("檢查您的 RBAC 權限"@, Some("kubectl auth can-i {verb} {resource}"@), RiskLevel::Low), ("聯繫集群管理員申請權限"@, None, RiskLevel::Low)]);
        ErrorPattern { pattern: owned(r"(?i)(forbidden|User.*cannot)"), tool: owned("kubectl"), error_type: owned("Kubernetes RBAC Permission Denied"), explanation_template: owned("您沒有執行此操作的權限"), solutions }
    } else if k == 3 {
        let mut solutions: Vec<Solution> = Vec::new();
        push_solution(&mut solutions, "啟動 Docker daemon（macOS）", Some("open -a Docker"), RiskLevel::Low);
        push_solution(&mut solutions, "啟動 Docker daemon（Linux）", Some("sudo systemctl start docker"), RiskLevel::Medium);
        push_solution(&mut solutions, "檢查 Docker daemon 狀態", Some("docker info"), RiskLevel::Low);
        assert(solutions_view(solutions@) =~= seq![("啟動 Docker daemon（macOS）"@, Some("open -a Docker"@), RiskLevel::Low), ("啟動 Docker daemon（Linux）"@, Some("sudo systemctl start docker"@), RiskLevel::Medium), ("檢查 Docker daemon 狀態"@, Some("docker info"@), RiskLevel::Low)]);
        ErrorPattern { pattern: owned(r"Cannot connect to the Docker daemon"), tool: owned("docker"), error_type: owned("Docker Daemon Not Running"), explanation_template: owned("Docker daemon 未執行或無法連接"), solutions }
    } else if k == 4 {
        let mut solutions: Vec<Solution> = Vec::new();
        push_solution(&mut solutions, "檢查用戶名和密碼", None, RiskLevel::Low);
        push_solution(&mut solutions, "查看用戶權限", Some("SELECT user, host FROM mysql.user;"), RiskLevel::Low);
        assert(solutions_view(solutions@) =~= seq![("檢查用戶名和密碼"@, None, RiskLevel::Low), ("查看用戶權限"@, Some("SELECT user, host FROM mysql.user;"@), RiskLevel::Low)]);
        ErrorPattern { pattern: owned(r"ERROR 1045|Access denied"), tool: owned("mysql"), error_type: owned("MySQL Authentication Failed"), explanation_template: owned("用戶名或密碼錯誤，無法連接資料庫"), solutions }
    } else if k == 5 {
        let mut solutions: Vec<Solution> = Vec::new();
        push_solution(&mut solutions, "查看可用的上下文", Some("kubectl config get-contexts"), RiskLevel::Low);
        push_solution(&mut solutions, "設定當前上下文", Some("kubectl config use-context {context-name}"), RiskLevel::Low);
        assert(solutions_view(solutions@) =~= seq![("查看可用的上下文"@, Some("kubectl config get-contexts"@), RiskLevel::Low), ("設定當前上下文"@, Some("kubectl config use-context {context-name}"@), RiskLevel::Low)]);
        ErrorPattern { pattern: owned(r"current-context is not set"), tool: owned("kubectl"), error_type: owned("Kubectl Context Not Set"), explanation_template: owned("kubectl 沒有設定當前上下文"), solutions }
    } else {
        let mut solutions: Vec<Solution> = Vec::new();
        push_solution(&mut solutions, "拉取映像", Some("docker pull {image-name}"), RiskLevel::Low);
        push_solution(&mut solutions, "查看本地映像", Some("docker images"), RiskLevel::Low);
        assert(solutions_view(solutions@) =~= seq![("拉取映像"@, Some("docker pull {image-name}"@), RiskLevel::Low), ("查看本地映像"@, Some("docker images"@), RiskLevel::Low)]);
        ErrorPattern { pattern: owned(r"Unable to find image|No such image"), tool: owned("docker"), error_type: owned("Docker Image Not Found"), explanation_template: owned("找不到指定的 Docker 映像"), solutions }
    }
}

/// The SQL file named in `error` (such as `database.mysql`), if any.
pub fn extract_filename_from_drush_error(error: &str) -> (r: Option<String>)
    ensures
        opt_view(r) == sql_file_in(error@),
{
    match regex_captures(SQL_FILE_PATTERN, error) {
        Some(caps) => {
            if caps.len() > 1 {
                caps[1].clone()
            } else {
                None
            }
        },
        None => None,
    }
}

/// `s` with `{filename}` in its command replaced by `fname`.
fn fill_filename(s: &Solution, fname: &Option<String>) -> (r: Solution)
    ensures
        solution_view(r) == with_filename(solution_view(*s), opt_view(*fname)),
{
    proof {
        reveal_strlit("{filename}");
    }
    let command = match &s.command {
        Some(c) => Some(
            match fname {
                Some(f) => replace_str(c.as_str(), "{filename}", f.as_str()),
                None => c.clone(),
            },
        ),
        None => None,
    };
    Solution { description: s.description.clone(), command, risk_level: s.risk_level }
}

impl PatternMatcher {
    /// A matcher with the built-in patterns.
    pub fn new() -> (r: Self)
        ensures
            r@ == builtin_error_patterns(),
    {
        let mut m = PatternMatcher { patterns: Vec::new() };
        let mut k: usize = 0;
        assert(m@ =~= builtin_error_patterns().take(0));
        while k < BUILTIN_PATTERN_COUNT
            invariant
                k <= BUILTIN_PATTERN_COUNT,
                m@ == builtin_error_patterns().take(k as int),
            decreases BUILTIN_PATTERN_COUNT - k,
        {
            let p = builtin_pattern_at(k);
            m.add_pattern(p);
            assert(builtin_error_patterns().take(k + 1) =~= builtin_error_patterns().take(k as int).push(
                builtin_error_pattern(k as int),
            ));
            k = k + 1;
        }
        assert(builtin_error_patterns().take(BUILTIN_PATTERN_COUNT as int) =~= builtin_error_patterns());
        m
    }

    /// Adds `pattern` after the others.
    pub fn add_pattern(&mut self, pattern: ErrorPattern)
        ensures
            final(self)@ == old(self)@.push(error_pattern_view(pattern)),
    {
        let ghost before = self@;
        let ghost pv = error_pattern_view(pattern);
        self.patterns.push(pattern);
        assert(self@ =~= before.push(pv));
    }

    /// The explanation of `error` by the first pattern that recognises it:
    /// its kind and explanation, the tool among the possible causes, and
    /// its solutions, with the SQL file the error names put in for
    /// `{filename}`; nothing when no pattern recognises it.
    pub fn match_pattern(&self, error: &str) -> (r: Option<ErrorExplanation>)
        ensures
            match r {
                Some(e) => match_with(self@, error@) == Some(explanation_view(e)),
                None => match_with(self@, error@) is None,
            },
    {
        let ghost pats = self@;
        let mut i: usize = 0;
        assert(pats.skip(0) =~= pats);
        while i < self.patterns.len()
            invariant
                i <= self.patterns@.len(),
                pats == self@,
                pats.len() == self.patterns@.len(),
                match_with(pats, error@) == match_with(pats.skip(i as int), error@),
            decreases self.patterns.len() - i,
        {
            let p = &self.patterns[i];
            assert(pats.skip(i as int)[0] == error_pattern_view(*p));
            assert(pats.skip(i as int).drop_first() =~= pats.skip(i + 1));
            if regex_is_match(p.pattern.as_str(), error) {
                let filename = extract_filename_from_drush_error(error);
                let ghost sv = solutions_view(p.solutions@);
                let mut solutions: Vec<Solution> = Vec::new();
                let mut j: usize = 0;
                while j < p.solutions.len()
                    invariant
                        j <= p.solutions@.len(),
                        sv == solutions_view(p.solutions@),
                        solutions_view(solutions@) == sv.take(j as int).map_values(
                            |s: (Seq<char>, Option<Seq<char>>, RiskLevel)| with_filename(s, opt_view(filename)),
                        ),
                    decreases p.solutions.len() - j,
                {
                    let ghost before = solutions_view(solutions@);
                    let s = fill_filename(&p.solutions[j], &filename);
                    solutions.push(s);
                    assert(solutions_view(solutions@) =~= before.push(with_filename(sv[j as int], opt_view(filename))));
                    assert(sv.take(j + 1).map_values(
                        |s: (Seq<char>, Option<Seq<char>>, RiskLevel)| with_filename(s, opt_view(filename)),
                    ) =~= sv.take(j as int).map_values(
                        |s: (Seq<char>, Option<Seq<char>>, RiskLevel)| with_filename(s, opt_view(filename)),
                    ).push(with_filename(sv[j as int], opt_view(filename))));
                    j = j + 1;
                }
                assert(sv.take(p.solutions@.len() as int) =~= sv);
                let mut causes: Vec<String> = Vec::new();
                let mut first = owned("工具：");
                first.append(p.tool.as_str());
                causes.push(first);
                causes.push(owned("命令格式不正確"));
                causes.push(owned("環境配置問題"));
                let e = ErrorExplanation {
                    error_type: p.error_type.clone(),
                    reason: p.explanation_template.clone(),
                    possible_causes: causes,
                    solutions,
                    recommended_solution: 0,
                    documentation_links: Vec::new(),
                };
                assert(views(e.possible_causes@) =~= seq!["工具："@ + p.tool@, "命令格式不正確"@, "環境配置問題"@]);
                assert(views(e.documentation_links@) =~= Seq::<Seq<char>>::empty());
                return Some(e);
            }
            i = i + 1;
        }
        assert(pats.skip(i as int).len() == 0);
        None
    }
}

impl Default for PatternMatcher {
    fn default() -> (r: Self)
        ensures
            r@ == builtin_error_patterns(),
    {
        PatternMatcher::new()
    }
}

/// The built-in patterns, in order: the expression that recognises each
/// error, the tool it belongs to, the kind of error it explains, the
/// explanation and the solutions (each with its command, if any, and risk).
pub proof fn law_builtin_error_pattern_table()
    ensures
        builtin_error_patterns().len() == 7,
        builtin_error_patterns()[0] == (r"(?i)ERROR\s+1064.*database\.(mysql|sql)"@, "drush"@, "Drush SQL File Execution Error"@, "drush sqlq 期望 SQL 語句，不能直接讀取檔案"@, seq![("使用 sql:cli 搭配重定向（推薦）"@, Some("vendor/bin/drush sql:cli < {filename}"@), RiskLevel::Medium), ("使用 cat + pipe"@, Some("cat {filename} | vendor/bin/drush sqlq"@), RiskLevel::Medium), ("使用 mysql 直接導入"@, Some("mysql -u user -p database < {filename}"@), RiskLevel::Medium)]),
        builtin_error_patterns()[1] == (r"(?i)ERROR\s+1064"@, "mysql"@, "SQL Syntax Error"@, "SQL 語法錯誤，MySQL 無法解析您的 SQL 語句"@, seq![("檢查 SQL 語法，確保關鍵字正確"@, None::<Seq<char>>, RiskLevel::Low), ("如果使用保留字，請用反引號包裹：`table`"@, None::<Seq<char>>, RiskLevel::Low)]),
        builtin_error_patterns()[2] == (r"(?i)(forbidden|User.*cannot)"@, "kubectl"@, "Kubernetes RBAC Permission Denied"@, "您沒有執行此操作的權限"@, seq![("檢查您的 RBAC 權限"@, Some("kubectl auth can-i {verb} {resource}"@), RiskLevel::Low), ("聯繫集群管理員申請權限"@, None::<Seq<char>>, RiskLevel::Low)]),
        builtin_error_patterns()[3] == (r"Cannot connect to the Docker daemon"@, "docker"@, "Docker Daemon Not Running"@, "Docker daemon 未執行或無法連接"@, seq![("啟動 Docker daemon（macOS）"@, Some("open -a Docker"@), RiskLevel::Low), ("啟動 Docker daemon（Linux）"@, Some("sudo systemctl start docker"@), RiskLevel::Medium), ("檢查 Docker daemon 狀態"@, Some("docker info"@), RiskLevel::Low)]),
        builtin_error_patterns()[4] == (r"ERROR 1045|Access denied"@, "mysql"@, "MySQL Authentication Failed"@, "用戶名或密碼錯誤，無法連接資料庫"@, seq![("檢查用戶名和密碼"@, None::<Seq<char>>, RiskLevel::Low), ("查看用戶權限"@, Some("SELECT user, host FROM mysql.user;"@), RiskLevel::Low)]),
        builtin_error_patterns()[5] == (r"current-context is not set"@, "kubectl"@, "Kubectl Context Not Set"@, "kubectl 沒有設定當前上下文"@, seq![("查看可用的上下文"@, Some("kubectl config get-contexts"@), RiskLevel::Low), ("設定當前上下文"@, Some("kubectl config use-context {context-name}"@), RiskLevel::Low)]),
        builtin_error_patterns()[6] == (r"Unable to find image|No such image"@, "docker"@, "Docker Image Not Found"@, "找不到指定的 Docker 映像"@, seq![("拉取映像"@, Some("docker pull {image-name}"@), RiskLevel::Low), ("查看本地映像"@, Some("docker images"@), RiskLevel::Low)]),
{
}

/// The first pattern that recognises an error explains it: when pattern
/// `k` matches `error` and none before it does, the explanation is that
/// pattern's, with the SQL file the error names put in for `{filename}`.
pub proof fn law_first_matching_error_pattern(
    pats: Seq<(Seq<char>, Seq<char>, Seq<char>, Seq<char>, Seq<(Seq<char>, Option<Seq<char>>, RiskLevel)>)>,
    error: Seq<char>,
    k: int,
)
    requires
        0 <= k < pats.len(),
        regex_matches(pats[k].0, error),
        forall|j: int| 0 <= j < k ==> !regex_matches(#[trigger] pats[j].0, error),
    ensures
        match_with(pats, error) == Some(explanation_of(pats[k], sql_file_in(error))),
    decreases k,
{
    if k > 0 {
        let d = pats.drop_first();
        assert(!regex_matches(pats[0].0, error));
        assert forall|j: int| 0 <= j < k - 1 implies !regex_matches(#[trigger] d[j].0, error) by {
            assert(d[j] == pats[j + 1]);
        }
        assert(d[k - 1] == pats[k]);
        law_first_matching_error_pattern(d, error, k - 1);
    }
}

/// An error that no pattern recognises gets no explanation.
pub proof fn law_no_error_pattern_matches(
    pats: Seq<(Seq<char>, Seq<char>, Seq<char>, Seq<char>, Seq<(Seq<char>, Option<Seq<char>>, RiskLevel)>)>,
    error: Seq<char>,
)
    requires
        forall|j: int| 0 <= j < pats.len() ==> !regex_matches(#[trigger] pats[j].0, error),
    ensures
        match_with(pats, error) is None,
    decreases pats.len(),
{
    if pats.len() > 0 {
        let d = pats.drop_first();
        assert(!regex_matches(pats[0].0, error));
        assert forall|j: int| 0 <= j < d.len() implies !regex_matches(#[trigger] d[j].0, error) by {
            assert(d[j] == pats[j + 1]);
        }
        law_no_error_pattern_matches(d, error);
    }
}

/// An error that the expression `Unable to find image|No such image`
/// matches, and that no earlier built-in pattern matches, is explained as
/// "Docker Image Not Found", with the solutions `docker pull {image-name}`
/// and `docker images`.
pub proof fn law_docker_image_not_found(error: Seq<char>)
    requires
        regex_matches(r"Unable to find image|No such image"@, error),
        forall|j: int| 0 <= j < 6 ==> !regex_matches(#[trigger] builtin_error_patterns()[j].0, error),
    ensures
        match_with(builtin_error_patterns(), error) matches Some(e) && {
            &&& e.0 == "Docker Image Not Found"@
            &&& e.1 == "找不到指定的 Docker 映像"@
            &&& e.2 == seq!["工具："@ + "docker"@, "命令格式不正確"@, "環境配置問題"@]
            &&& e.4 == 0
            &&& e.5.len() == 0
            &&& e.3.len() == 2
            &&& e.3[0].1 == Some("docker pull {image-name}"@)
            &&& e.3[1].1 == Some("docker images"@)
        },
{
    law_builtin_error_pattern_table();
    let pats = builtin_error_patterns();
    law_first_matching_error_pattern(pats, error, 6);
    let f = sql_file_in(error);
    let c0 = "docker pull {image-name}"@;
    let c1 = "docker images"@;
    lemma_docker_commands_name_no_file();
    if let Some(x) = f {
        lemma_replace_all_absent(c0, "{filename}"@, x);
        lemma_replace_all_absent(c1, "{filename}"@, x);
    }
}

/// Replacing a text that does not occur changes nothing.
proof fn lemma_replace_all_absent(s: Seq<char>, pat: Seq<char>, rep: Seq<char>)
    requires
        !contains(s, pat),
    ensures
        replace_all(s, pat, rep) == s,
    decreases s.len(),
{
    if s.len() > 0 && pat.len() > 0 {
        assert(!occurs_at(s, pat, 0));
        assert forall|i: int| !occurs_at(s.drop_first(), pat, i) by {
            if occurs_at(s.drop_first(), pat, i) {
                assert(s.subrange(i + 1, i + 1 + pat.len()) =~= s.drop_first().subrange(i, i + pat.len()));
                assert(occurs_at(s, pat, i + 1));
            }
        }
        lemma_replace_all_absent(s.drop_first(), pat, rep);
        assert(seq![s[0]] + s.drop_first() =~= s);
    }
}

/// The commands of the missing-image solutions name no SQL file.
proof fn lemma_docker_commands_name_no_file()
    ensures
        !contains("docker pull {image-name}"@, "{filename}"@),
        !contains("docker images"@, "{filename}"@),
{
    reveal_strlit("docker pull {image-name}");
    reveal_strlit("docker images");
    reveal_strlit("{filename}");
    let n = "{filename}"@;
    let a = "docker pull {image-name}"@;
    let b = "docker images"@;
    assert forall|i: int| !occurs_at(a, n, i) by {
        if occurs_at(a, n, i) {
            assert(a.subrange(i, i + 10)[0] == a[i]);
            assert(a.subrange(i, i + 10)[1] == a[i + 1]);
            assert(i == 0 || i == 1 || i == 2 || i == 3 || i == 4 || i == 5 || i == 6 || i == 7 || i == 8
                || i == 9 || i == 10 || i == 11 || i == 12 || i == 13 || i == 14);
        }
    }
    assert forall|i: int| !occurs_at(b, n, i) by {
        if occurs_at(b, n, i) {
            assert(b.subrange(i, i + 10)[0] == b[i]);
            assert(i == 0 || i == 1 || i == 2 || i == 3);
        }
    }
}

} // verus!
