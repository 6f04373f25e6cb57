#!/bin/sh
# Runs a build command with the commit that is checked out in PLUGIN_COMMIT, from where it gets into
# the version of the program: extras/with_commit.sh <command> [<argument>...]
set -eu

if commit=$(git rev-parse --short HEAD 2>/dev/null); then
    export PLUGIN_COMMIT="$commit"
fi

exec "$@"
