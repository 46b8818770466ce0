//! The fixed content of the home page: who the site is about, their skills
//! and their projects.

use vstd::prelude::*;

verus! {

/// A project shown on the home page.
pub struct Project {
    pub name: String,
    pub description: String,
    pub technologies: Vec<String>,
    pub github_url: Option<String>,
    pub live_url: Option<String>,
}

/// Everything the home page shows.
pub struct PortfolioData {
    pub name: String,
    pub title: String,
    pub about: String,
    pub skills: Vec<String>,
    pub projects: Vec<Project>,
    pub contact_email: String,
}

/// The mathematical content of a `Project`.
pub struct ProjectModel {
    pub name: Seq<char>,
    pub description: Seq<char>,
    pub technologies: Seq<Seq<char>>,
    pub github_url: Option<Seq<char>>,
    pub live_url: Option<Seq<char>>,
}

/// The mathematical content of a `PortfolioData`.
pub struct PortfolioModel {
    pub name: Seq<char>,
    pub title: Seq<char>,
    pub about: Seq<char>,
    pub skills: Seq<Seq<char>>,
    pub projects: Seq<ProjectModel>,
    pub contact_email: Seq<char>,
}

/// The characters of each string, in order.
pub open spec fn texts(v: Seq<String>) -> Seq<Seq<char>> {
    v.map_values(|s: String| s@)
}

/// The characters of an optional string.
pub open spec fn opt_text(o: Option<String>) -> Option<Seq<char>> {
    match o {
        Some(s) => Some(s@),
        None => None,
    }
}

impl View for Project {
    type V = ProjectModel;

    open spec fn view(&self) -> ProjectModel {
        ProjectModel {
            name: self.name@,
            description: self.description@,
            technologies: texts(self.technologies@),
            github_url: opt_text(self.github_url),
            live_url: opt_text(self.live_url),
        }
    }
}

impl View for PortfolioData {
    type V = PortfolioModel;

    open spec fn view(&self) -> PortfolioModel {
        PortfolioModel {
            name: self.name@,
            title: self.title@,
            about: self.about@,
            skills: texts(self.skills@),
            projects: self.projects@.map_values(|p: Project| p@),
            contact_email: self.contact_email@,
        }
    }
}

/// The home page's content.
pub open spec fn home_content() -> PortfolioModel {
    PortfolioModel {
        name: "Philani Dlamini"@,
        title: "Full Stack Developer"@,
        about: "I'm a passionate developer with expertise in cutting-edge technologies. I thrive on solving complex problems and creating innovative solutions that push boundaries."@,
        skills: seq![
            "Python"@,
            "Rust"@,
            "MongoDB"@,
            "React"@,
            "REDIS"@,
            "PostgreSQL"@,
            "Actix Web"@,
            "Sage 200"@,
            "Docker"@,
        ],
        projects: seq![
            ProjectModel {
                name: "Futuristic Portfolio Web App"@,
                description: "A futuristic web application built with Rust and modern frontend technologies."@,
                technologies: seq!["Rust"@, "Tera"@, "WASM"@, "Actix Web"@, "CSS"@, "JS"@],
                github_url: Some("https://github.com/Killjoy99/portfolio-rs"@),
                live_url: None,
            },
            ProjectModel {
                name: "Kivy Lazy Loading Template"@,
                description: "A modern kivymd template with all the Optimisation for beginner Android Application Developers utilising Python 13+, integrated with Cython for Optimisations."@,
                technologies: seq!["Python"@, "Kivy"@, "KivyMD"@, "Cython"@],
                github_url: Some("https://github.com/Killjoy99/kivymd-lazy-loading-template"@),
                live_url: None,
            },
            ProjectModel {
                name: "Sage 200 Python API"@,
                description: "A minimalistic sage SDK integration API using Python FastAPI"@,
                technologies: seq!["Python"@, "pythonnet"@, "FastAPI"@, "SqlAlchemy"@],
                github_url: Some("https://github.com/Killjoy99/sage_integration"@),
                live_url: None,
            },
        ],
        contact_email: "philani.dlamini@outlook.com"@,
    }
}

/// Builds the home page's content.
pub fn portfolio() -> (r: PortfolioData)
    ensures
        r@ == home_content(),
{
    let skills = vec![
        "Python".to_string(),
        "Rust".to_string(),
        "MongoDB".to_string(),
        "React".to_string(),
        "REDIS".to_string(),
        "PostgreSQL".to_string(),
        "Actix Web".to_string(),
        "Sage 200".to_string(),
        "Docker".to_string(),
    ];
    let first = Project {
        name: "Futuristic Portfolio Web App".to_string(),
        description: "A futuristic web application built with Rust and modern frontend technologies.".to_string(),
        technologies: vec![
            "Rust".to_string(),
            "Tera".to_string(),
            "WASM".to_string(),
            "Actix Web".to_string(),
            "CSS".to_string(),
            "JS".to_string(),
        ],
        github_url: Some("https://github.com/Killjoy99/portfolio-rs".to_string()),
        live_url: None,
    };
    let second = Project {
        name: "Kivy Lazy Loading Template".to_string(),
        description: "A modern kivymd template with all the Optimisation for beginner Android Application Developers utilising Python 13+, integrated with Cython for Optimisations.".to_string(),
        technologies: vec![
            "Python".to_string(),
            "Kivy".to_string(),
            "KivyMD".to_string(),
            "Cython".to_string(),
        ],
        github_url: Some("https://github.com/Killjoy99/kivymd-lazy-loading-template".to_string()),
        live_url: None,
    };
    let third = Project {
        name: "Sage 200 Python API".to_string(),
        description: "A minimalistic sage SDK integration API using Python FastAPI".to_string(),
        technologies: vec![
            "Python".to_string(),
            "pythonnet".to_string(),
            "FastAPI".to_string(),
            "SqlAlchemy".to_string(),
        ],
        github_url: Some("https://github.com/Killjoy99/sage_integration".to_string()),
        live_url: None,
    };
    assert(texts(first.technologies@) =~= home_content().projects[0].technologies);
    assert(texts(second.technologies@) =~= home_content().projects[1].technologies);
    assert(texts(third.technologies@) =~= home_content().projects[2].technologies);
    let projects = vec![first, second, third];
    let r = PortfolioData {
        name: "Philani Dlamini".to_string(),
        title: "Full Stack Developer".to_string(),
        about: "I'm a passionate developer with expertise in cutting-edge technologies. I thrive on solving complex problems and creating innovative solutions that push boundaries.".to_string(),
        skills,
        projects,
        contact_email: "philani.dlamini@outlook.com".to_string(),
    };
    assert(texts(r.skills@) =~= home_content().skills);
    assert(r.projects@.map_values(|p: Project| p@) =~= home_content().projects);
    r
}

} // verus!
