use engine_builder::models::ranking::RankedCodebaseFile;
use engine_builder::stages::dockerfile::{
    add_scripts_to_dockerfile, build_failure_message, combine_prompts, context_file_names,
    dockerfile_content_from_response, extract_dockerfile_from_response, repaired_dockerfile,
    select_ranked_files, DockerfileInputError, ScriptsPresent,
};

#[test]
fn test_extract_dockerfile_with_dockerfile_tag() {
    let response = r#"Here's the updated Dockerfile:

```dockerfile
FROM ubuntu:20.04

RUN apt-get update && \
    apt-get install -y python3 python3-pip

WORKDIR /app
COPY . .

RUN pip3 install -r requirements.txt

CMD ["python3", "app.py"]
```

This should fix the issue."#;

    let result = extract_dockerfile_from_response(response).unwrap();
    let expected = r#"FROM ubuntu:20.04

RUN apt-get update && \
    apt-get install -y python3 python3-pip

WORKDIR /app
COPY . .

RUN pip3 install -r requirements.txt

CMD ["python3", "app.py"]"#;

    assert_eq!(result, expected);
}

#[test]
fn test_extract_dockerfile_with_generic_tag() {
    let response = r#"Here's the updated Dockerfile:

```
FROM ubuntu:20.04

RUN apt-get update && \
    apt-get install -y python3 python3-pip

WORKDIR /app
COPY . .

RUN pip3 install -r requirements.txt

CMD ["python3", "app.py"]
```

This should fix the issue."#;

    let result = extract_dockerfile_from_response(response).unwrap();
    let expected = r#"FROM ubuntu:20.04

RUN apt-get update && \
    apt-get install -y python3 python3-pip

WORKDIR /app
COPY . .

RUN pip3 install -r requirements.txt

CMD ["python3", "app.py"]"#;

    assert_eq!(result, expected);
}

#[test]
fn test_extract_dockerfile_without_tags() {
    let response = r#"FROM ubuntu:20.04

RUN apt-get update && \
    apt-get install -y python3 python3-pip

WORKDIR /app
COPY . .

RUN pip3 install -r requirements.txt

CMD ["python3", "app.py"]"#;

    let result = dockerfile_content_from_response(response);
    assert_eq!(result, response);
}

#[test]
fn untagged_block_without_from_is_not_a_dockerfile() {
    let response = "Try this:\n```\necho hello\n```\n";
    assert_eq!(extract_dockerfile_from_response(response), None);
    assert_eq!(dockerfile_content_from_response(response), response);
}

#[test]
fn scripts_are_copied_and_made_executable() {
    let present = ScriptsPresent { setup: true, lint: false, test: true, single_test: false };
    let out = add_scripts_to_dockerfile("FROM alpine\n", present);
    assert_eq!(
        out,
        "FROM alpine\n\n# Copy scripts\nCOPY setup-script.sh /usr/local/bin/setup-script.sh\nCOPY test-script.sh /usr/local/bin/test-script.sh\nRUN chmod +x /usr/local/bin/setup-script.sh /usr/local/bin/test-script.sh\n"
    );
}

#[test]
fn no_scripts_leave_the_dockerfile_unchanged() {
    let present = ScriptsPresent { setup: false, lint: false, test: false, single_test: false };
    assert_eq!(add_scripts_to_dockerfile("FROM alpine\n", present), "FROM alpine\n");
}

#[test]
fn repair_reply_falls_back_to_instruction_lines() {
    let reply = "You should do this:\nFROM python:3.11\nthen\nRUN pip install x\r\nand done";
    assert_eq!(repaired_dockerfile(reply, "FROM old"), "FROM python:3.11\nRUN pip install x");
    assert_eq!(repaired_dockerfile("nothing useful", "FROM old"), "FROM old");
    let fenced = "```dockerfile\nFROM new\n```";
    assert_eq!(repaired_dockerfile(fenced, "FROM old"), "FROM new");
}

#[test]
fn build_failure_counts_every_attempt() {
    assert_eq!(build_failure_message(3), "Docker build failed after 4 attempts");
    assert_eq!(build_failure_message(0), "Docker build failed after 1 attempts");
}

#[test]
fn ranked_files_are_required_and_limited() {
    assert_eq!(select_ranked_files(None, 5).unwrap_err(), DockerfileInputError::RankingMissing);
    let empty: Vec<RankedCodebaseFile> = Vec::new();
    assert_eq!(select_ranked_files(Some(&empty), 5).unwrap_err(), DockerfileInputError::NoRankedFiles);
    let files: Vec<RankedCodebaseFile> = (0..7)
        .map(|i| RankedCodebaseFile { path: format!("f{}.rs", i), tokens: i })
        .collect();
    let top = select_ranked_files(Some(&files), 5).unwrap();
    assert_eq!(top.len(), 5);
    assert_eq!(top[4].path, "f4.rs");
    let few = select_ranked_files(Some(&files[..2].to_vec()), 5).unwrap();
    assert_eq!(few.len(), 2);
    assert_eq!(
        DockerfileInputError::RankingMissing.message("p1"),
        "Ranking not found for problem: p1. Run ranking step first."
    );
    assert_eq!(DockerfileInputError::NoRankedFiles.message("p1"), "No ranked files found for problem: p1");
}

#[test]
fn prompts_and_context_files() {
    assert_eq!(combine_prompts("S", "U"), "System instructions:\nS\n\nUser request:\nU");
    assert_eq!(
        context_file_names(),
        vec!["Dockerfile", "setup-script.sh", "lint-script.sh", "test-script.sh", "single-test-script.sh"]
    );
}
