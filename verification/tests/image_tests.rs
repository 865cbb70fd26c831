use daytona::image::DockerImage;

#[test]
fn test_base_image() {
    let image = DockerImage::base("ubuntu:22.04");
    assert_eq!(image.dockerfile(), "FROM ubuntu:22.04");
}

#[test]
fn test_debian_slim_with_python() {
    let image = DockerImage::debian_slim(Some("3.11"));
    assert_eq!(image.dockerfile(), "FROM python:3.11-slim");
}

#[test]
fn test_debian_slim_without_python() {
    let image = DockerImage::debian_slim(None);
    assert_eq!(image.dockerfile(), "FROM debian:12-slim");
}

#[test]
fn test_from_dockerfile() {
    let content = "FROM ubuntu:22.04\nRUN apt-get update\nRUN apt-get install -y curl";
    let image = DockerImage::from_dockerfile(content);
    assert_eq!(image.dockerfile(), content);
}

#[test]
fn test_builder_chain() {
    let image = DockerImage::debian_slim(Some("3.11"))
        .env("APP_ENV", "production")
        .workdir("/app")
        .apt_get(&["curl", "git"])
        .pip_install(&["flask", "gunicorn"])
        .copy(".", "/app")
        .expose(&[8080])
        .user("appuser")
        .entrypoint(&["python3"])
        .cmd(&["-m", "flask", "run"]);

    let df = image.dockerfile();
    assert!(df.starts_with("FROM python:3.11-slim"));
    assert!(df.contains("ENV APP_ENV=\"production\""));
    assert!(df.contains("WORKDIR /app"));
    assert!(df.contains("RUN apt-get update && apt-get install -y curl git"));
    assert!(df.contains("RUN pip install flask gunicorn"));
    assert!(df.contains("COPY . /app"));
    assert!(df.contains("EXPOSE 8080"));
    assert!(df.contains("USER appuser"));
    assert!(df.contains("ENTRYPOINT [\"python3\"]"));
    assert!(df.contains("CMD [\"-m\", \"flask\", \"run\"]"));
}

#[test]
fn test_add_local_file_creates_context() {
    let image =
        DockerImage::base("ubuntu:22.04").add_local_file("./config.toml", "/etc/config.toml");

    assert_eq!(image.contexts().len(), 1);
    assert_eq!(image.contexts()[0].source_path, "./config.toml");
    assert_eq!(image.contexts()[0].archive_path, "/etc/config.toml");
    assert!(image
        .dockerfile()
        .contains("ADD ./config.toml /etc/config.toml"));
}

#[test]
fn test_add_local_dir_creates_context() {
    let image = DockerImage::base("ubuntu:22.04").add_local_dir("./src", "/app/src");

    assert_eq!(image.contexts().len(), 1);
    assert_eq!(image.contexts()[0].source_path, "./src");
    assert_eq!(image.contexts()[0].archive_path, "/app/src");
}

#[test]
fn test_labels_and_volumes() {
    let image = DockerImage::base("ubuntu:22.04")
        .label("version", "1.0")
        .volume(&["/data", "/logs"]);

    let df = image.dockerfile();
    assert!(df.contains("LABEL version=\"1.0\""));
    assert!(df.contains("VOLUME [\"/data\", \"/logs\"]"));
}

#[test]
fn dockerfile_lines_strip_carriage_returns() {
    let image = DockerImage::from_dockerfile("FROM a\r\nRUN b\n");
    assert_eq!(image.dockerfile(), "FROM a\nRUN b");
}

#[test]
fn expose_renders_each_port() {
    let image = DockerImage::base("x").expose(&[80, 443, 8080]);
    assert_eq!(image.dockerfile(), "FROM x\nEXPOSE 80\nEXPOSE 443\nEXPOSE 8080");
}
